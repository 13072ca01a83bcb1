//! Whether the service takes the session for signed in.

use vstd::prelude::*;

verus! {

/// What the service answered when asked whether the session is signed in.
#[derive(Clone, Copy, Debug, PartialEq, Eq, Structural)]
pub struct AuthResponse {
    /// Whether the answer's status was a success.
    pub status_success: bool,
    /// The flag in the answer's body; `None` where the body could not be
    /// read.
    pub is_auth: Option<bool>,
}

/// Only an answer that came, with a success status and a body whose flag
/// is set, counts as signed in. `None` stands for a request that failed.
pub open spec fn authenticated(response: Option<AuthResponse>) -> bool {
    match response {
        Some(r) => r.status_success && r.is_auth == Some(true),
        None => false,
    }
}

/// Whether this answer says that the session is signed in.
pub fn eval_auth(response: Option<AuthResponse>) -> (r: bool)
    ensures
        r == authenticated(response),
{
    match response {
        Some(r) => {
            if r.status_success {
                match r.is_auth {
                    Some(flag) => flag,
                    None => false,
                }
            } else {
                false
            }
        },
        None => false,
    }
}

} // verus!
