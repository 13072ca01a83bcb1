//! The course of a pending operation: which request is made next, and what
//! the operation comes to in the end.
//!
//! The surrounding program makes each request and hands back the reply. A
//! reply that does not answer the request counts as a request that failed.

use crate::requests::check_auth::{authenticated, eval_auth, AuthResponse};
use crate::requests::get_user_details::{
    details_result_view, get_user_details, user_details_result, UserReply, UserReplyView,
};
use crate::requests::join_class::{join_class, join_result, join_result_view, JoinReply, JoinReplyView};
use crate::requests::login::{login, login_result, text_result_view, LoginReply, LoginReplyView};
use crate::screens::loading::{
    LoginOutcome, LoginOutcomeView, OperationOutcome, OperationOutcomeView, PendingOperation,
    PendingOperationView, SessionOutcome, SessionOutcomeView,
};
use crate::user::{UserDetails, UserDetailsView};
use vstd::prelude::*;

verus! {

/// A request to the service, or to the client that talks to it.
#[derive(Debug, PartialEq, Eq)]
pub enum Request {
    /// Put this saved session in the place of the one that the client
    /// holds.
    UseSession { cookies: String },
    /// Ask whether the session is signed in.
    CheckAuth,
    /// Have the session's token refreshed.
    RefreshToken,
    /// Ask for the profile of the signed-in user.
    UserDetails,
    /// Sign in.
    Login { email: String, password: String },
    /// Hand in an attendance code, from a place near the hall.
    JoinClass { code: String },
}

/// What came of a request.
#[derive(Debug, PartialEq, Eq)]
pub enum Reply {
    /// The saved session was put in place.
    SessionInUse,
    /// The answer to `CheckAuth`; `None` where the request failed.
    Auth(Option<AuthResponse>),
    /// The token was sent to be refreshed, whatever came of it.
    Refreshed,
    /// What came of `UserDetails`.
    UserDetails(UserReply),
    /// What came of `Login`.
    Login(LoginReply),
    /// What came of `JoinClass`.
    Join(JoinReply),
}

/// The view of a `Request`.
pub enum RequestView {
    UseSession { cookies: Seq<char> },
    CheckAuth,
    RefreshToken,
    UserDetails,
    Login { email: Seq<char>, password: Seq<char> },
    JoinClass { code: Seq<char> },
}

/// The view of a `Reply`.
pub enum ReplyView {
    SessionInUse,
    Auth(Option<AuthResponse>),
    Refreshed,
    UserDetails(UserReplyView),
    Login(LoginReplyView),
    Join(JoinReplyView),
}

impl Request {
    pub open spec fn view(&self) -> RequestView {
        match self {
            Request::UseSession { cookies } => RequestView::UseSession { cookies: cookies@ },
            Request::CheckAuth => RequestView::CheckAuth,
            Request::RefreshToken => RequestView::RefreshToken,
            Request::UserDetails => RequestView::UserDetails,
            Request::Login { email, password } => RequestView::Login {
                email: email@,
                password: password@,
            },
            Request::JoinClass { code } => RequestView::JoinClass { code: code@ },
        }
    }
}

impl Reply {
    pub open spec fn view(&self) -> ReplyView {
        match self {
            Reply::SessionInUse => ReplyView::SessionInUse,
            Reply::Auth(r) => ReplyView::Auth(*r),
            Reply::Refreshed => ReplyView::Refreshed,
            Reply::UserDetails(r) => ReplyView::UserDetails(r@),
            Reply::Login(r) => ReplyView::Login(r@),
            Reply::Join(r) => ReplyView::Join(r@),
        }
    }
}

/// The view of the reply that is handed back, if there is one.
pub open spec fn reply_view(reply: Option<Reply>) -> Option<ReplyView> {
    match reply {
        Some(r) => Some(r@),
        None => None,
    }
}

/// How far the operation has come: what was asked last.
#[derive(Debug, PartialEq, Eq)]
pub enum Stage {
    /// Nothing was asked yet.
    Start,
    /// The saved session was put in place.
    Session,
    /// The session was asked about for the first time.
    Auth,
    /// The token was sent to be refreshed.
    Refresh,
    /// The session was asked about for the second time.
    AuthAgain,
    /// The profile of a session that is good was asked for.
    Details,
    /// The sign-in was sent.
    Login,
    /// The profile was asked for after a sign-in that gave this session.
    LoginDetails { cookies: String },
    /// The code was handed in.
    Join,
}

/// The view of a `Stage`.
pub enum StageView {
    Start,
    Session,
    Auth,
    Refresh,
    AuthAgain,
    Details,
    Login,
    LoginDetails { cookies: Seq<char> },
    Join,
}

impl Stage {
    pub open spec fn view(&self) -> StageView {
        match self {
            Stage::Start => StageView::Start,
            Stage::Session => StageView::Session,
            Stage::Auth => StageView::Auth,
            Stage::Refresh => StageView::Refresh,
            Stage::AuthAgain => StageView::AuthAgain,
            Stage::Details => StageView::Details,
            Stage::Login => StageView::Login,
            Stage::LoginDetails { cookies } => StageView::LoginDetails { cookies: cookies@ },
            Stage::Join => StageView::Join,
        }
    }
}

impl StageView {
    /// How many requests at most are still to be made, the one that is
    /// asked next included.
    pub open spec fn requests_left(self) -> nat {
        match self {
            StageView::Start => 6,
            StageView::Session => 5,
            StageView::Auth => 4,
            StageView::Refresh => 3,
            StageView::AuthAgain => 2,
            StageView::Details => 1,
            StageView::Login => 2,
            StageView::LoginDetails { cookies } => 1,
            StageView::Join => 1,
        }
    }

    /// Whether an operation of this kind comes through this stage.
    pub open spec fn fits(self, operation: PendingOperationView) -> bool {
        match self {
            StageView::Start => true,
            StageView::Session => operation is ValidateAccount,
            StageView::Auth | StageView::Refresh | StageView::AuthAgain | StageView::Details => {
                operation is CheckSession || operation is ValidateAccount
            },
            StageView::Login => operation is Login,
            StageView::LoginDetails { cookies } => operation is Login,
            StageView::Join => operation is SubmitCode,
        }
    }
}

/// An operation under way.
pub struct ExchangeView {
    pub operation: PendingOperationView,
    pub stage: StageView,
}

/// What happens next: a request to make, and the operation as it waits for
/// the reply; or the operation and what it came to.
pub enum ProgressView {
    Send(RequestView, ExchangeView),
    Done(PendingOperationView, OperationOutcomeView),
}

/// The reason given where a reply does not answer the request.
pub open spec fn no_reply() -> Seq<char> {
    "No reply"@
}

/// What the reply says of the session.
pub open spec fn auth_of(reply: Option<ReplyView>) -> Option<AuthResponse> {
    match reply {
        Some(ReplyView::Auth(r)) => r,
        _ => None,
    }
}

/// The profile that the reply holds, or why it holds none.
pub open spec fn profile_of(reply: Option<ReplyView>) -> Result<UserDetailsView, Seq<char>> {
    match reply {
        Some(ReplyView::UserDetails(r)) => user_details_result(r),
        _ => Err(no_reply()),
    }
}

/// The session that the sign-in gave, or why it failed.
pub open spec fn login_of(reply: Option<ReplyView>) -> Result<Seq<char>, Seq<char>> {
    match reply {
        Some(ReplyView::Login(r)) => login_result(r),
        _ => Err(no_reply()),
    }
}

/// Whether the code was taken, or what went wrong.
pub open spec fn join_of(reply: Option<ReplyView>) -> Result<bool, Seq<char>> {
    match reply {
        Some(ReplyView::Join(r)) => join_result(r),
        _ => Err(no_reply()),
    }
}

/// What a session check found, given the reply to the request for the
/// profile of a session that is good.
pub open spec fn session_found(reply: Option<ReplyView>) -> SessionOutcomeView {
    match profile_of(reply) {
        Ok(details) => SessionOutcomeView::Authenticated(details),
        Err(_) => SessionOutcomeView::ProfileUnavailable,
    }
}

/// The profile that the reply holds, if it holds one.
pub open spec fn profile_if_any(reply: Option<ReplyView>) -> Option<UserDetailsView> {
    match profile_of(reply) {
        Ok(details) => Some(details),
        Err(_) => None,
    }
}

impl ExchangeView {
    /// The operation before anything was asked.
    pub open spec fn start(operation: PendingOperationView) -> ExchangeView {
        ExchangeView { operation, stage: StageView::Start }
    }

    /// Whether the stage is one that an operation of this kind comes through.
    pub open spec fn wf(self) -> bool {
        self.stage.fits(self.operation)
    }

    /// The same operation at another stage.
    pub open spec fn at(self, stage: StageView) -> ExchangeView {
        ExchangeView { stage, ..self }
    }

    /// The first request of the operation.
    pub open spec fn first_request(self) -> ProgressView {
        match self.operation {
            PendingOperationView::CheckSession => ProgressView::Send(
                RequestView::CheckAuth,
                self.at(StageView::Auth),
            ),
            PendingOperationView::ValidateAccount { account } => ProgressView::Send(
                RequestView::UseSession { cookies: account.cookies },
                self.at(StageView::Session),
            ),
            PendingOperationView::Login { creds } => ProgressView::Send(
                RequestView::Login { email: creds.email, password: creds.password },
                self.at(StageView::Login),
            ),
            PendingOperationView::SubmitCode { code, user_details } => ProgressView::Send(
                RequestView::JoinClass { code },
                self.at(StageView::Join),
            ),
        }
    }

    /// What follows once `reply` has come for the request that was made
    /// last. At the start there is no such request, and `reply` does not
    /// count.
    ///
    /// A session is asked about; one that is not signed in has its token
    /// refreshed, whatever comes of that, and is asked about once more.
    /// For a session that is signed in the profile is asked for. A sign-in
    /// that was accepted is followed by a request for the profile, and
    /// counts as accepted whether or not the profile can be had.
    pub open spec fn advanced(self, reply: Option<ReplyView>) -> ProgressView {
        match self.stage {
            StageView::Start => self.first_request(),
            StageView::Session => ProgressView::Send(RequestView::CheckAuth, self.at(StageView::Auth)),
            StageView::Auth => if authenticated(auth_of(reply)) {
                ProgressView::Send(RequestView::UserDetails, self.at(StageView::Details))
            } else {
                ProgressView::Send(RequestView::RefreshToken, self.at(StageView::Refresh))
            },
            StageView::Refresh => ProgressView::Send(
                RequestView::CheckAuth,
                self.at(StageView::AuthAgain),
            ),
            StageView::AuthAgain => if authenticated(auth_of(reply)) {
                ProgressView::Send(RequestView::UserDetails, self.at(StageView::Details))
            } else {
                ProgressView::Done(
                    self.operation,
                    OperationOutcomeView::Session(SessionOutcomeView::Unauthenticated),
                )
            },
            StageView::Details => ProgressView::Done(
                self.operation,
                OperationOutcomeView::Session(session_found(reply)),
            ),
            StageView::Login => match login_of(reply) {
                Ok(cookies) => ProgressView::Send(
                    RequestView::UserDetails,
                    self.at(StageView::LoginDetails { cookies }),
                ),
                Err(reason) => ProgressView::Done(
                    self.operation,
                    OperationOutcomeView::Login(LoginOutcomeView::Rejected(reason)),
                ),
            },
            StageView::LoginDetails { cookies } => ProgressView::Done(
                self.operation,
                OperationOutcomeView::Login(
                    LoginOutcomeView::Accepted { cookies, details: profile_if_any(reply) },
                ),
            ),
            StageView::Join => ProgressView::Done(
                self.operation,
                OperationOutcomeView::Submit(join_of(reply)),
            ),
        }
    }
}

/// An operation under way. Its stage is one that an operation of its kind
/// comes through.
#[derive(Debug, PartialEq, Eq)]
pub struct Exchange {
    operation: PendingOperation,
    stage: Stage,
}

impl Clone for Stage {
    fn clone(&self) -> (r: Self)
        ensures
            r@ == self@,
    {
        match self {
            Stage::Start => Stage::Start,
            Stage::Session => Stage::Session,
            Stage::Auth => Stage::Auth,
            Stage::Refresh => Stage::Refresh,
            Stage::AuthAgain => Stage::AuthAgain,
            Stage::Details => Stage::Details,
            Stage::Login => Stage::Login,
            Stage::LoginDetails { cookies } => Stage::LoginDetails { cookies: cookies.clone() },
            Stage::Join => Stage::Join,
        }
    }
}

/// What happens next.
#[derive(Debug, PartialEq, Eq)]
pub enum Progress {
    /// This request is to be made, and its reply handed to the operation.
    Send(Request, Exchange),
    /// The operation is complete: the operation, and what it came to.
    Done(PendingOperation, OperationOutcome),
}

impl Progress {
    pub open spec fn view(&self) -> ProgressView {
        match self {
            Progress::Send(request, exchange) => ProgressView::Send(request@, exchange@),
            Progress::Done(operation, outcome) => ProgressView::Done(operation@, outcome@),
        }
    }
}

fn auth_reply(reply: &Option<Reply>) -> (r: Option<AuthResponse>)
    ensures
        r == auth_of(reply_view(*reply)),
{
    match reply {
        Some(Reply::Auth(r)) => *r,
        _ => None,
    }
}

fn profile_reply(reply: Option<Reply>) -> (r: Result<UserDetails, String>)
    ensures
        details_result_view(r) == profile_of(reply_view(reply)),
{
    match reply {
        Some(Reply::UserDetails(r)) => get_user_details(r),
        _ => Err("No reply".to_owned()),
    }
}

fn login_reply(reply: Option<Reply>) -> (r: Result<String, String>)
    ensures
        text_result_view(r) == login_of(reply_view(reply)),
{
    match reply {
        Some(Reply::Login(r)) => login(r),
        _ => Err("No reply".to_owned()),
    }
}

fn join_reply(reply: Option<Reply>) -> (r: Result<bool, String>)
    ensures
        join_result_view(r) == join_of(reply_view(reply)),
{
    match reply {
        Some(Reply::Join(r)) => join_class(r),
        _ => Err("No reply".to_owned()),
    }
}

impl Exchange {
    #[verifier::type_invariant]
    spec fn stage_fits(&self) -> bool {
        self.stage@.fits(self.operation@)
    }

    pub closed spec fn view(&self) -> ExchangeView {
        ExchangeView { operation: self.operation@, stage: self.stage@ }
    }

    /// The operation before anything was asked.
    pub fn start(operation: PendingOperation) -> (r: Exchange)
        ensures
            r@ == ExchangeView::start(operation@),
    {
        Exchange { operation, stage: Stage::Start }
    }

    /// The operation that is under way.
    pub fn operation(&self) -> (r: &PendingOperation)
        ensures
            r@ == self@.operation,
            self@.wf(),
    {
        proof {
            use_type_invariant(self);
        }
        &self.operation
    }

    /// Whether a request was made whose reply the operation waits for.
    pub fn awaits_reply(&self) -> (r: bool)
        ensures
            r == !(self@.stage is Start),
    {
        match &self.stage {
            Stage::Start => false,
            _ => true,
        }
    }

    /// Takes the reply to the request that was made last, `None` at the
    /// start, and says what happens next.
    pub fn advance(self, reply: Option<Reply>) -> (next: Progress)
        ensures
            next@ == self@.advanced(reply_view(reply)),
            self@.wf(),
            (match next@ {
                ProgressView::Send(request, exchange) => exchange.wf() && exchange.operation
                    == self@.operation && exchange.stage.requests_left()
                    < self@.stage.requests_left(),
                ProgressView::Done(operation, outcome) => operation.accepts(outcome),
            }),
    {
        proof {
            use_type_invariant(&self);
        }
        let Exchange { operation, stage } = self;
        match stage {
            Stage::Start => {
                let (request, stage) = match &operation {
                    PendingOperation::CheckSession => (Request::CheckAuth, Stage::Auth),
                    PendingOperation::ValidateAccount { account } => (
                        Request::UseSession { cookies: account.cookies.clone() },
                        Stage::Session,
                    ),
                    PendingOperation::Login { creds } => (
                        Request::Login {
                            email: creds.email.clone(),
                            password: creds.password.clone(),
                        },
                        Stage::Login,
                    ),
                    PendingOperation::SubmitCode { code, user_details } => (
                        Request::JoinClass { code: code.clone() },
                        Stage::Join,
                    ),
                };
                Progress::Send(request, Exchange { operation, stage })
            },
            Stage::Session => Progress::Send(
                Request::CheckAuth,
                Exchange { operation, stage: Stage::Auth },
            ),
            Stage::Auth => {
                if eval_auth(auth_reply(&reply)) {
                    Progress::Send(
                        Request::UserDetails,
                        Exchange { operation, stage: Stage::Details },
                    )
                } else {
                    Progress::Send(
                        Request::RefreshToken,
                        Exchange { operation, stage: Stage::Refresh },
                    )
                }
            },
            Stage::Refresh => Progress::Send(
                Request::CheckAuth,
                Exchange { operation, stage: Stage::AuthAgain },
            ),
            Stage::AuthAgain => {
                if eval_auth(auth_reply(&reply)) {
                    Progress::Send(
                        Request::UserDetails,
                        Exchange { operation, stage: Stage::Details },
                    )
                } else {
                    Progress::Done(
                        operation,
                        OperationOutcome::Session(SessionOutcome::Unauthenticated),
                    )
                }
            },
            Stage::Details => match profile_reply(reply) {
                Ok(details) => Progress::Done(
                    operation,
                    OperationOutcome::Session(SessionOutcome::Authenticated(details)),
                ),
                Err(_) => Progress::Done(
                    operation,
                    OperationOutcome::Session(SessionOutcome::ProfileUnavailable),
                ),
            },
            Stage::Login => match login_reply(reply) {
                Ok(cookies) => Progress::Send(
                    Request::UserDetails,
                    Exchange { operation, stage: Stage::LoginDetails { cookies } },
                ),
                Err(reason) => Progress::Done(
                    operation,
                    OperationOutcome::Login(LoginOutcome::Rejected(reason)),
                ),
            },
            Stage::LoginDetails { cookies } => {
                let details = match profile_reply(reply) {
                    Ok(details) => Some(details),
                    Err(_) => None,
                };
                Progress::Done(
                    operation,
                    OperationOutcome::Login(LoginOutcome::Accepted { cookies, details }),
                )
            },
            Stage::Join => Progress::Done(operation, OperationOutcome::Submit(join_reply(reply))),
        }
    }
}

impl Clone for Exchange {
    fn clone(&self) -> (r: Self)
        ensures
            r@ == self@,
    {
        proof {
            use_type_invariant(self);
        }
        Exchange { operation: self.operation.clone(), stage: self.stage.clone() }
    }
}

} // verus!
