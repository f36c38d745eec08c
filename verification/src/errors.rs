//! Rendering an error with its cause chain for the operator-facing log:
//! the error's own message first, then one line per cause, in order.

use vstd::prelude::*;

verus! {

/// The rendered lines of a cause chain, one per cause.
pub open spec fn spec_cause_lines(causes: Seq<Seq<char>>) -> Seq<char>
    decreases causes.len(),
{
    if causes.len() == 0 {
        Seq::empty()
    } else {
        "Caused by : \n\t"@ + causes[0] + "\n"@ + spec_cause_lines(causes.drop_first())
    }
}

/// The full rendering: the error's message, a blank line, then the
/// cause chain.
pub open spec fn spec_error_chain(top: Seq<char>, causes: Seq<Seq<char>>) -> Seq<char> {
    top + "\n\n"@ + spec_cause_lines(causes)
}

/// Render an error and the messages of its cause chain, the outermost
/// cause first, as the diagnostics log shows them.
#[verifier::loop_isolation(false)]
pub fn error_chain_fmt(error: &String, causes: &Vec<String>) -> (r: String)
    ensures
        r@ == spec_error_chain(error@, causes@.map_values(|c: String| c@)),
{
    let ghost cs = causes@.map_values(|c: String| c@);
    let mut out = error.clone();
    out.append("\n\n");
    let n = causes.len();
    let mut i: usize = 0;
    proof {
        assert(cs.skip(0) =~= cs);
        assert(out@ + spec_cause_lines(cs.skip(0)) =~= spec_error_chain(error@, cs));
    }
    while i < n
        invariant
            i <= n,
            out@ + spec_cause_lines(cs.skip(i as int)) == spec_error_chain(error@, cs),
        decreases n - i,
    {
        proof {
            assert(cs.skip(i as int)[0] == cs[i as int]);
            assert(cs.skip(i as int).drop_first() =~= cs.skip(i + 1));
        }
        out.append("Caused by : \n\t");
        out.append(causes[i].as_str());
        out.append("\n");
        proof {
            assert(out@ + spec_cause_lines(cs.skip(i + 1)) =~= spec_error_chain(error@, cs));
        }
        i = i + 1;
    }
    proof {
        assert(spec_cause_lines(cs.skip(n as int)).len() == 0);
        assert(out@ =~= spec_error_chain(error@, cs));
    }
    out
}

} // verus!
