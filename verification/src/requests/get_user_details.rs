//! What the request for the user's profile came to.

use crate::text::join2;
use crate::user::{UserDetails, UserDetailsView};
use vstd::prelude::*;

verus! {

/// `serde_json::Value`, a JSON document. The library reads it only through
/// `boolean_member` and `string_member`.
#[verifier::external_type_specification]
#[verifier::external_body]
pub struct ExValue(serde_json::Value);

/// The members of the JSON object `value` that hold a boolean, by name;
/// none where `value` is no object.
pub uninterp spec fn json_booleans(value: serde_json::Value) -> Map<Seq<char>, bool>;

/// The members of the JSON object `value` that hold a string, by name;
/// none where `value` is no object.
pub uninterp spec fn json_strings(value: serde_json::Value) -> Map<Seq<char>, Seq<char>>;

/// What `members` holds under `key`.
pub open spec fn member<V>(members: Map<Seq<char>, V>, key: Seq<char>) -> Option<V> {
    if members.contains_key(key) {
        Some(members[key])
    } else {
        None
    }
}

/// Indexes `value` with `key` and calls `serde_json::Value::as_bool` on
/// what is there. Indexing gives the member of that name where `value` is
/// an object that has one, and null in every other case, without a panic;
/// `as_bool` gives the boolean where it is called on one, and `None`
/// otherwise. So the result is the boolean member named `key`.
#[verifier::external_body]
fn boolean_member(value: &serde_json::Value, key: &str) -> (r: Option<bool>)
    ensures
        r == member(json_booleans(*value), key@),
{
    value[key].as_bool()
}

/// Indexes `value` with `key` and calls `serde_json::Value::as_str` on what
/// is there: the result is a copy of the string member named `key`.
#[verifier::external_body]
fn string_member(value: &serde_json::Value, key: &str) -> (r: Option<String>)
    ensures
        (match r {
            Some(text) => Some(text@),
            None => None,
        }) == member(json_strings(*value), key@),
{
    match value[key].as_str() {
        Some(text) => Some(text.to_owned()),
        None => None,
    }
}

/// What the body of the answer holds for the library: its flag, and its
/// data as text.
#[derive(Debug, PartialEq, Eq)]
pub struct UserBody {
    /// The member `sonuc` where it is there and a boolean.
    pub sonuc: Option<bool>,
    /// The member `data` where it is there and a string.
    pub data: Option<String>,
}

/// The view of a `UserBody`.
pub struct UserBodyView {
    pub sonuc: Option<bool>,
    pub data: Option<Seq<char>>,
}

impl UserBody {
    pub open spec fn view(&self) -> UserBodyView {
        UserBodyView {
            sonuc: self.sonuc,
            data: match self.data {
                Some(text) => Some(text@),
                None => None,
            },
        }
    }
}

/// Reads the flag and the data out of the body of the answer.
pub fn read_user_body(body: &serde_json::Value) -> (r: UserBody)
    ensures
        r@ == (UserBodyView {
            sonuc: member(json_booleans(*body), "sonuc"@),
            data: member(json_strings(*body), "data"@),
        }),
{
    UserBody { sonuc: boolean_member(body, "sonuc"), data: string_member(body, "data") }
}

/// The `data` field of the answer's body.
#[derive(Debug, PartialEq, Eq)]
pub enum UserData {
    /// There is no such field, or it is no text.
    Missing,
    /// The text is no profile; the text here says why.
    Malformed(String),
    /// The profile that the text holds.
    Profile(UserDetails),
}

/// What came of the request for the profile.
#[derive(Debug, PartialEq, Eq)]
pub enum UserReply {
    /// The request could not be made; the text says why.
    Failed(String),
    /// The service answered with a status that is no success; the text
    /// is the status.
    Status(String),
    /// The answer's body could not be read; the text says why.
    Unreadable(String),
    /// The answer's body: its flag `sonuc` where it is there and a boolean,
    /// and its field `data`.
    Body { sonuc: Option<bool>, data: UserData },
}

/// The view of a `UserData`.
pub enum UserDataView {
    Missing,
    Malformed(Seq<char>),
    Profile(UserDetailsView),
}

/// The view of a `UserReply`.
pub enum UserReplyView {
    Failed(Seq<char>),
    Status(Seq<char>),
    Unreadable(Seq<char>),
    Body { sonuc: Option<bool>, data: UserDataView },
}

impl UserData {
    pub open spec fn view(&self) -> UserDataView {
        match self {
            UserData::Missing => UserDataView::Missing,
            UserData::Malformed(e) => UserDataView::Malformed(e@),
            UserData::Profile(d) => UserDataView::Profile(d@),
        }
    }
}

impl UserReply {
    pub open spec fn view(&self) -> UserReplyView {
        match self {
            UserReply::Failed(e) => UserReplyView::Failed(e@),
            UserReply::Status(s) => UserReplyView::Status(s@),
            UserReply::Unreadable(e) => UserReplyView::Unreadable(e@),
            UserReply::Body { sonuc, data } => UserReplyView::Body { sonuc: *sonuc, data: data@ },
        }
    }
}

/// The profile, or why there is none. The body counts only where its flag
/// is set; then its data must be there and must be a profile.
pub open spec fn user_details_result(reply: UserReplyView) -> Result<UserDetailsView, Seq<char>> {
    match reply {
        UserReplyView::Failed(e) => Err(e),
        UserReplyView::Status(status) => Err("Request failed with status: "@ + status),
        UserReplyView::Unreadable(e) => Err(e),
        UserReplyView::Body { sonuc, data } => if sonuc == Some(true) {
            match data {
                UserDataView::Missing => Err("Missing data field"@),
                UserDataView::Malformed(e) => Err(e),
                UserDataView::Profile(d) => Ok(d),
            }
        } else {
            Err("API returned unsuccessful result"@)
        },
    }
}

/// The view of a profile or an error's text.
pub open spec fn details_result_view(r: Result<UserDetails, String>) -> Result<
    UserDetailsView,
    Seq<char>,
> {
    match r {
        Ok(d) => Ok(d@),
        Err(e) => Err(e@),
    }
}

/// Reads the profile off the reply.
pub fn get_user_details(reply: UserReply) -> (r: Result<UserDetails, String>)
    ensures
        details_result_view(r) == user_details_result(reply@),
{
    match reply {
        UserReply::Failed(e) => Err(e),
        UserReply::Status(status) => Err(join2("Request failed with status: ", status.as_str())),
        UserReply::Unreadable(e) => Err(e),
        UserReply::Body { sonuc, data } => {
            let flagged = match sonuc {
                Some(flag) => flag,
                None => false,
            };
            if flagged {
                match data {
                    UserData::Missing => Err("Missing data field".to_owned()),
                    UserData::Malformed(e) => Err(e),
                    UserData::Profile(d) => Ok(d),
                }
            } else {
                Err("API returned unsuccessful result".to_owned())
            }
        },
    }
}

} // verus!
