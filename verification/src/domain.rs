//! Value objects for subscribers: a validated email address and a
//! validated display name.  Both parse untrusted input before it reaches
//! storage, and both are pure functions of their input.

use vstd::prelude::*;

verus! {

/// Whether the characters form a syntactically valid email address.
///
/// Relies on validator's `ValidateEmail::validate_email` for `String`: the
/// HTML5 email grammar, a pure function of the characters alone.
pub uninterp spec fn email_valid(s: Seq<char>) -> bool;

/// Relies on validator's `ValidateEmail::validate_email` for `String`.
/// Its source rejects the empty string outright, any string without '@',
/// and any string whose local part (the part before the last '@') is empty
/// or itself contains '@' - in particular any string starting with '@'.
#[verifier::external_body]
fn validate_email_str(raw: &String) -> (r: bool)
    ensures
        r == email_valid(raw@),
        raw@.len() == 0 ==> !r,
        (forall|i: int| 0 <= i < raw@.len() ==> raw@[i] != '@') ==> !r,
        raw@.len() > 0 && raw@[0] == '@' ==> !r,
{
    validator::ValidateEmail::validate_email(raw)
}

/// A subscriber email address that passed the email grammar check.
#[derive(Debug)]
pub struct SubscriberEmail(String);

impl View for SubscriberEmail {
    type V = Seq<char>;

    closed spec fn view(&self) -> Seq<char> {
        self.0@
    }
}

impl SubscriberEmail {
    /// Accepts exactly the strings that pass the email grammar; in
    /// particular, every empty string, every string without '@' and every
    /// string with an empty local part is rejected.
    pub fn parse(email: String) -> (r: Result<SubscriberEmail, String>)
        ensures
            r is Ok <==> email_valid(email@),
            r matches Ok(e) ==> e@ == email@,
            r matches Err(m) ==> m@ == email@ + ", is not a valid subscriber email."@,
            email@.len() == 0 ==> r is Err,
            (forall|i: int| 0 <= i < email@.len() ==> email@[i] != '@') ==> r is Err,
            email@.len() > 0 && email@[0] == '@' ==> r is Err,
    {
        if validate_email_str(&email) {
            Ok(SubscriberEmail(email))
        } else {
            Err(email.concat(", is not a valid subscriber email."))
        }
    }

    /// The underlying address.
    pub fn as_ref(&self) -> (r: &String)
        ensures
            r@ == self@,
    {
        &self.0
    }
}

/// Display-name characters that are rejected because names are later
/// interpolated into emails and logs.
pub open spec fn is_forbidden_name_char(c: char) -> bool {
    ||| c == '/'
    ||| c == '('
    ||| c == ')'
    ||| c == '"'
    ||| c == '<'
    ||| c == '>'
    ||| c == '\\'
    ||| c == '{'
    ||| c == '}'
}

/// Control characters - the C0 range, delete, and the C1 range - are
/// rejected in display names.
pub open spec fn is_control_char(c: char) -> bool {
    (c as u32) < 32 || (127 <= (c as u32) <= 159)
}

/// The Unicode white-space characters, which a display name may not
/// consist of alone.
pub open spec fn is_space_char(c: char) -> bool {
    ||| 9 <= (c as u32) <= 13
    ||| c == ' '
    ||| c == '\u{85}'
    ||| c == '\u{a0}'
    ||| c == '\u{1680}'
    ||| 0x2000 <= (c as u32) <= 0x200a
    ||| c == '\u{2028}'
    ||| c == '\u{2029}'
    ||| c == '\u{202f}'
    ||| c == '\u{205f}'
    ||| c == '\u{3000}'
}

/// A display name is valid when it is non-empty, not whitespace-only,
/// at most 256 characters long, and free of control and markup-special
/// characters.
pub open spec fn name_valid(s: Seq<char>) -> bool {
    &&& 0 < s.len() <= 256
    &&& (exists|i: int| 0 <= i < s.len() && !is_space_char(s[i]))
    &&& (forall|i: int|
        0 <= i < s.len() ==> !is_forbidden_name_char(s[i]) && !is_control_char(s[i]))
}

fn is_forbidden_name_char_exec(c: char) -> (r: bool)
    ensures
        r == is_forbidden_name_char(c),
{
    c == '/' || c == '(' || c == ')' || c == '"' || c == '<' || c == '>' || c == '\\' || c == '{'
        || c == '}'
}

fn is_control_char_exec(c: char) -> (r: bool)
    ensures
        r == is_control_char(c),
{
    (c as u32) < 32 || (127 <= (c as u32) && (c as u32) <= 159)
}

fn is_space_char_exec(c: char) -> (r: bool)
    ensures
        r == is_space_char(c),
{
    let v = c as u32;
    (9 <= v && v <= 13) || c == ' ' || c == '\u{85}' || c == '\u{a0}' || c == '\u{1680}' || (0x2000
        <= v && v <= 0x200a) || c == '\u{2028}' || c == '\u{2029}' || c == '\u{202f}' || c
        == '\u{205f}' || c == '\u{3000}'
}

/// A subscriber display name that passed the name checks.
#[derive(Debug)]
pub struct SubscriberName(String);

impl View for SubscriberName {
    type V = Seq<char>;

    closed spec fn view(&self) -> Seq<char> {
        self.0@
    }
}

impl SubscriberName {
    /// Accepts exactly the valid display names; in particular every empty
    /// or whitespace-only string is rejected.
    pub fn parse(name: String) -> (r: Result<SubscriberName, String>)
        ensures
            r is Ok <==> name_valid(name@),
            r matches Ok(n) ==> n@ == name@,
            r matches Err(m) ==> m@ == name@ + " is not a valid subscriber name."@,
            (forall|i: int| 0 <= i < name@.len() ==> is_space_char(name@[i])) ==> r is Err,
    {
        let len = name.as_str().unicode_len();
        if len == 0 || len > 256 {
            return Err(name.concat(" is not a valid subscriber name."));
        }
        let mut i: usize = 0;
        let mut seen_mark: bool = false;
        while i < len
            invariant
                len == name@.len(),
                0 < len <= 256,
                i <= len,
                seen_mark == exists|j: int| 0 <= j < i && !is_space_char(name@[j]),
                forall|j: int|
                    0 <= j < i ==> !is_forbidden_name_char(name@[j]) && !is_control_char(
                        name@[j],
                    ),
            decreases len - i,
        {
            let c = name.as_str().get_char(i);
            if is_forbidden_name_char_exec(c) || is_control_char_exec(c) {
                return Err(name.concat(" is not a valid subscriber name."));
            }
            if !is_space_char_exec(c) {
                proof {
                    assert(!is_space_char(name@[i as int]));
                }
                seen_mark = true;
            }
            i = i + 1;
        }
        if seen_mark {
            Ok(SubscriberName(name))
        } else {
            Err(name.concat(" is not a valid subscriber name."))
        }
    }

    /// The underlying name.
    pub fn as_ref(&self) -> (r: &String)
        ensures
            r@ == self@,
    {
        &self.0
    }
}

/// A validated pair of display name and email address, ready to be stored.
#[derive(Debug)]
pub struct NewSubscriber {
    pub email: SubscriberEmail,
    pub name: SubscriberName,
}

} // verus!
