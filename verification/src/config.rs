//! Values fixed at process start and handed to the workflows: the public
//! base URL that confirmation links are built from, and the shared secret
//! that signs redirect messages.

use vstd::prelude::*;

verus! {

/// The externally visible base URL of the application, without a trailing
/// slash; confirmation links are formed by appending a path to it.
#[derive(Debug)]
pub struct ApplicationBaseUrl(pub String);

/// The shared secret for the tamper-evident redirect messages.
#[derive(Debug)]
pub struct HmacSecret(pub String);

} // verus!
