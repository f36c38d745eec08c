//! What the email collaborator is asked to send: one message per
//! recipient, and the URL of the provider's send endpoint.  The transport
//! itself lives outside the library.

use vstd::prelude::*;

verus! {

/// One outbound email: recipient, subject, and the HTML and plain-text
/// bodies.
#[derive(Debug)]
pub struct EmailRequest {
    pub to: String,
    pub subject: String,
    pub html_part: String,
    pub text_part: String,
}

/// The provider endpoint messages are posted to.
pub open spec fn spec_send_url(base: Seq<char>) -> Seq<char> {
    base + "/send"@
}

/// The URL of the provider's send endpoint under a base URL.
pub fn send_url(base_url: &str) -> (r: String)
    ensures
        r@ == spec_send_url(base_url@),
{
    let mut url = base_url.to_owned();
    url.append("/send");
    url
}

} // verus!
