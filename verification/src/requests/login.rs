//! What a sign-in request came to.

use vstd::prelude::*;

verus! {

/// The status that the service answers an accepted sign-in with.
pub const STATUS_OK: u16 = 200;

/// What came of the sign-in request.
#[derive(Debug, PartialEq, Eq)]
pub enum LoginReply {
    /// The request could not be made; the text says why.
    Failed(String),
    /// The service answered with this status. `cookies` is the session that
    /// the client holds afterwards.
    Answered { status: u16, cookies: String },
}

/// The view of a `LoginReply`.
pub enum LoginReplyView {
    Failed(Seq<char>),
    Answered { status: u16, cookies: Seq<char> },
}

impl LoginReply {
    pub open spec fn view(&self) -> LoginReplyView {
        match self {
            LoginReply::Failed(e) => LoginReplyView::Failed(e@),
            LoginReply::Answered { status, cookies } => LoginReplyView::Answered {
                status: *status,
                cookies: cookies@,
            },
        }
    }
}

/// The session of an accepted sign-in, or why the sign-in failed. Only the
/// status 200 accepts.
pub open spec fn login_result(reply: LoginReplyView) -> Result<Seq<char>, Seq<char>> {
    match reply {
        LoginReplyView::Failed(e) => Err(e),
        LoginReplyView::Answered { status, cookies } => if status == STATUS_OK {
            Ok(cookies)
        } else {
            Err("Login failed"@)
        },
    }
}

/// The view of a sign-in's result.
pub open spec fn text_result_view(r: Result<String, String>) -> Result<Seq<char>, Seq<char>> {
    match r {
        Ok(s) => Ok(s@),
        Err(e) => Err(e@),
    }
}

impl LoginReply {
    /// Whether the service accepted the sign-in, so that the session it
    /// gave is worth keeping.
    pub fn accepted(&self) -> (r: bool)
        ensures
            r == (login_result(self@) is Ok),
    {
        match self {
            LoginReply::Failed(_) => false,
            LoginReply::Answered { status, cookies } => *status == STATUS_OK,
        }
    }
}

/// Reads the result of the sign-in off the reply.
pub fn login(reply: LoginReply) -> (r: Result<String, String>)
    ensures
        text_result_view(r) == login_result(reply@),
{
    match reply {
        LoginReply::Failed(e) => Err(e),
        LoginReply::Answered { status, cookies } => {
            if status == STATUS_OK {
                Ok(cookies)
            } else {
                Err("Login failed".to_owned())
            }
        },
    }
}

} // verus!
