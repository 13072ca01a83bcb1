//! What handing in an attendance code came to.

use crate::text::join2;
use vstd::prelude::*;

verus! {

/// What came of the request that hands the code in.
#[derive(Debug, PartialEq, Eq)]
pub enum JoinReply {
    /// The request could not be made; the text says why.
    Failed(String),
    /// The service answered with a success status.
    Joined,
    /// The service answered with another status, and this message.
    Refused(String),
    /// The service answered with another status, and a body that could not
    /// be read; the text says why.
    Unreadable(String),
}

/// The view of a `JoinReply`.
pub enum JoinReplyView {
    Failed(Seq<char>),
    Joined,
    Refused(Seq<char>),
    Unreadable(Seq<char>),
}

impl JoinReply {
    pub open spec fn view(&self) -> JoinReplyView {
        match self {
            JoinReply::Failed(e) => JoinReplyView::Failed(e@),
            JoinReply::Joined => JoinReplyView::Joined,
            JoinReply::Refused(m) => JoinReplyView::Refused(m@),
            JoinReply::Unreadable(e) => JoinReplyView::Unreadable(e@),
        }
    }
}

/// What the user is told when the service refused the code with `message`.
pub open spec fn refusal(message: Seq<char>) -> Seq<char> {
    if message == "Yoklama bulunamadı"@ {
        "Yoklama bulunamadı, kodu kontrol edin."@
    } else {
        "Bir hata ile karşılaşıldı: "@ + message
    }
}

/// Whether the code was taken, or what went wrong.
pub open spec fn join_result(reply: JoinReplyView) -> Result<bool, Seq<char>> {
    match reply {
        JoinReplyView::Failed(e) => Err(e),
        JoinReplyView::Joined => Ok(true),
        JoinReplyView::Refused(m) => Err(refusal(m)),
        JoinReplyView::Unreadable(e) => Err(e),
    }
}

/// The view of the result of handing in a code.
pub open spec fn join_result_view(r: Result<bool, String>) -> Result<bool, Seq<char>> {
    match r {
        Ok(joined) => Ok(joined),
        Err(e) => Err(e@),
    }
}

/// Reads the result of handing in the code off the reply.
pub fn join_class(reply: JoinReply) -> (r: Result<bool, String>)
    ensures
        join_result_view(r) == join_result(reply@),
{
    match reply {
        JoinReply::Failed(e) => Err(e),
        JoinReply::Joined => Ok(true),
        JoinReply::Refused(message) => {
            let not_found = "Yoklama bulunamadı".to_owned();
            if message == not_found {
                Err("Yoklama bulunamadı, kodu kontrol edin.".to_owned())
            } else {
                Err(join2("Bir hata ile karşılaşıldı: ", message.as_str()))
            }
        },
        JoinReply::Unreadable(e) => Err(e),
    }
}

} // verus!
