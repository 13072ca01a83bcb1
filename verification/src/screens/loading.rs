//! The screen that stands for an operation in flight.

pub mod modern;

use crate::app::{App, AppView, HostView};
use crate::config::{UserCredentials, UserCredentialsView};
use crate::event::Event;
use crate::requests::exchange::{
    reply_view, Exchange, ExchangeView, Progress, ProgressView, Reply, ReplyView,
};
use crate::screens::blank::BlankScreen;
use crate::screens::home::enter_code::{EnterCodeScreen, EnterCodeView};
use crate::screens::home::{HomeScreen, HomeView};
use crate::screens::login::{LoginScreen, LoginView, UserCreds, UserCredsView};
use crate::screens::prompt::{PromptAction, PromptActionView, PromptScreen, PromptView, Selection};
use crate::screens::{handled_by, Handled, Screen, ScreenAction, ScreenActionView, ScreenView};
use crate::text::{join2, join3};
use crate::user::{profile_view, UserDetails, UserDetailsView};
use vstd::prelude::*;

verus! {

/// A long-running piece of work whose result decides the next screen. The
/// loading screen owns it and takes it forward request by request; the host
/// makes the requests.
#[derive(Debug, PartialEq, Eq)]
pub enum PendingOperation {
    /// Find out whether the session that the client holds is still good.
    CheckSession,
    /// Take up the session of a saved account and find out whether it is
    /// still good.
    ValidateAccount { account: UserCredentials },
    /// Sign in with what was typed into the form.
    Login { creds: UserCreds },
    /// Hand in an attendance code for the user with this profile.
    SubmitCode { code: String, user_details: UserDetails },
}

/// The view of a `PendingOperation`.
pub enum PendingOperationView {
    CheckSession,
    ValidateAccount { account: UserCredentialsView },
    Login { creds: UserCredsView },
    SubmitCode { code: Seq<char>, user_details: UserDetailsView },
}

/// The view of an operation, if there is one.
pub open spec fn operation_view(operation: Option<PendingOperation>) -> Option<
    PendingOperationView,
> {
    match operation {
        Some(o) => Some(o@),
        None => None,
    }
}

impl PendingOperation {
    pub open spec fn view(&self) -> PendingOperationView {
        match self {
            PendingOperation::CheckSession => PendingOperationView::CheckSession,
            PendingOperation::ValidateAccount { account } => PendingOperationView::ValidateAccount {
                account: account@,
            },
            PendingOperation::Login { creds } => PendingOperationView::Login { creds: creds@ },
            PendingOperation::SubmitCode { code, user_details } => PendingOperationView::SubmitCode {
                code: code@,
                user_details: user_details@,
            },
        }
    }
}

impl Clone for PendingOperation {
    fn clone(&self) -> (r: Self)
        ensures
            r@ == self@,
    {
        match self {
            PendingOperation::CheckSession => PendingOperation::CheckSession,
            PendingOperation::ValidateAccount { account } => PendingOperation::ValidateAccount {
                account: account.clone(),
            },
            PendingOperation::Login { creds } => PendingOperation::Login { creds: creds.clone() },
            PendingOperation::SubmitCode { code, user_details } => PendingOperation::SubmitCode {
                code: code.clone(),
                user_details: user_details.clone(),
            },
        }
    }
}

/// What a check of the client's session found.
#[derive(Debug, PartialEq, Eq)]
pub enum SessionOutcome {
    /// The service does not take the session for signed in.
    Unauthenticated,
    /// The session is good, but the profile could not be had.
    ProfileUnavailable,
    /// The session is good, and this is the user's profile.
    Authenticated(UserDetails),
}

/// How a sign-in ended.
#[derive(Debug, PartialEq, Eq)]
pub enum LoginOutcome {
    /// The service refused, or could not be reached; the text says why.
    Rejected(String),
    /// The service accepted. `cookies` is the session it gave, `details`
    /// the profile if it could be had.
    Accepted { cookies: String, details: Option<UserDetails> },
}

/// What an operation came to once it was complete.
#[derive(Debug, PartialEq, Eq)]
pub enum OperationOutcome {
    Session(SessionOutcome),
    Login(LoginOutcome),
    /// Whether the code was taken, or why it could not be handed in.
    Submit(Result<bool, String>),
}

/// The view of a `SessionOutcome`.
pub enum SessionOutcomeView {
    Unauthenticated,
    ProfileUnavailable,
    Authenticated(UserDetailsView),
}

/// The view of a `LoginOutcome`.
pub enum LoginOutcomeView {
    Rejected(Seq<char>),
    Accepted { cookies: Seq<char>, details: Option<UserDetailsView> },
}

/// The view of an `OperationOutcome`.
pub enum OperationOutcomeView {
    Session(SessionOutcomeView),
    Login(LoginOutcomeView),
    Submit(Result<bool, Seq<char>>),
}

impl SessionOutcome {
    pub open spec fn view(&self) -> SessionOutcomeView {
        match self {
            SessionOutcome::Unauthenticated => SessionOutcomeView::Unauthenticated,
            SessionOutcome::ProfileUnavailable => SessionOutcomeView::ProfileUnavailable,
            SessionOutcome::Authenticated(d) => SessionOutcomeView::Authenticated(d@),
        }
    }
}

impl LoginOutcome {
    pub open spec fn view(&self) -> LoginOutcomeView {
        match self {
            LoginOutcome::Rejected(e) => LoginOutcomeView::Rejected(e@),
            LoginOutcome::Accepted { cookies, details } => LoginOutcomeView::Accepted {
                cookies: cookies@,
                details: profile_view(*details),
            },
        }
    }
}

impl OperationOutcome {
    pub open spec fn view(&self) -> OperationOutcomeView {
        match self {
            OperationOutcome::Session(o) => OperationOutcomeView::Session(o@),
            OperationOutcome::Login(o) => OperationOutcomeView::Login(o@),
            OperationOutcome::Submit(o) => OperationOutcomeView::Submit(
                match o {
                    Ok(joined) => Ok(*joined),
                    Err(e) => Err(e@),
                },
            ),
        }
    }
}

impl PendingOperationView {
    /// Whether `outcome` is a result that this operation can have.
    pub open spec fn accepts(self, outcome: OperationOutcomeView) -> bool {
        match self {
            PendingOperationView::CheckSession => outcome is Session,
            PendingOperationView::ValidateAccount { account } => outcome is Session,
            PendingOperationView::Login { creds } => outcome is Login,
            PendingOperationView::SubmitCode { code, user_details } => outcome is Submit,
        }
    }
}

/// The question whether to sign in, asked when a session proved useless.
/// "Yes" opens the sign-in form `login`, "no" leaves the application.
pub open spec fn sign_in_again_prompt(
    header: Seq<char>,
    prompt: Seq<char>,
    login: LoginView,
) -> PromptView {
    PromptView::confirm(
        header,
        "Giriş Yap"@,
        prompt,
        Selection::Yes,
        PromptActionView::switch_to(ScreenView::Login(login)),
        PromptActionView::terminate(),
    )
}

/// The screen after the session found at start-up was checked.
pub open spec fn startup_screen(outcome: SessionOutcomeView) -> ScreenView {
    match outcome {
        SessionOutcomeView::Authenticated(details) => ScreenView::Home(HomeView::opening(details)),
        SessionOutcomeView::ProfileUnavailable => ScreenView::Prompt(
            sign_in_again_prompt(
                "Deysis F*cker"@,
                "Giriş bilginiz geçersiz, giriş yapmak ister misiniz?"@,
                LoginView::empty(),
            ),
        ),
        SessionOutcomeView::Unauthenticated => ScreenView::Prompt(
            sign_in_again_prompt(
                "Deysis F*cker"@,
                "Giriş bilginiz bulunamadı, giriş yapmak ister misiniz?"@,
                LoginView::empty(),
            ),
        ),
    }
}

/// The sign-in data of a saved account.
pub open spec fn creds_of(account: UserCredentialsView) -> UserCredsView {
    UserCredsView { email: account.email, password: account.password }
}

/// The screen after the session of the saved `account` was checked.
pub open spec fn validated_screen(
    account: UserCredentialsView,
    outcome: SessionOutcomeView,
) -> ScreenView {
    match outcome {
        SessionOutcomeView::Authenticated(details) => ScreenView::Home(HomeView::opening(details)),
        _ => ScreenView::Prompt(
            sign_in_again_prompt(
                "Deysis TUI"@,
                "Giriş bilginiz geçersiz, giriş yapmak ister misiniz?"@,
                LoginView::prefilled(creds_of(account)),
            ),
        ),
    }
}

/// The error shown when the service refused the sign-in for `reason`.
pub open spec fn rejected_message(reason: Seq<char>) -> Seq<char> {
    "Giriş başarısız: "@ + reason
}

/// The error shown when the sign-in went through and the profile could not
/// be had.
pub open spec fn no_profile_message() -> Seq<char> {
    "Giriş başarısız: Kullanıcı bilgileri alınamadı."@
}

/// The screen after a sign-in with `creds`.
pub open spec fn signed_in_screen(creds: UserCredsView, outcome: LoginOutcomeView) -> ScreenView {
    match outcome {
        LoginOutcomeView::Rejected(reason) => ScreenView::Login(
            LoginView::failed(creds.email, rejected_message(reason)),
        ),
        LoginOutcomeView::Accepted { cookies, details } => match details {
            Some(d) => ScreenView::Home(HomeView::opening(d)),
            None => ScreenView::Login(LoginView::failed(creds.email, no_profile_message())),
        },
    }
}

/// The host's resources after a sign-in with `creds`: an accepted sign-in
/// is saved with the session it gave. It is saved as soon as the service
/// has accepted it, so also where the profile could not be had afterwards
/// and the form comes back with an error.
pub open spec fn signed_in_host(
    creds: UserCredsView,
    outcome: LoginOutcomeView,
    host: HostView,
) -> HostView {
    match outcome {
        LoginOutcomeView::Rejected(reason) => host,
        LoginOutcomeView::Accepted { cookies, details } => host.saving(
            UserCredentialsView { email: creds.email, password: creds.password, cookies },
        ),
    }
}

/// The question asked after a code could not be handed in: "yes" opens an
/// empty code entry, "no" leaves the application.
pub open spec fn try_again_prompt(prompt: Seq<char>) -> PromptView {
    PromptView::confirm(
        "Hata!"@,
        "Yoklamaya katılamadınız."@,
        prompt,
        Selection::Yes,
        PromptActionView::switch_to(ScreenView::EnterCode(EnterCodeView::empty())),
        PromptActionView::terminate(),
    )
}

/// The question shown when handing in the code failed for `reason`.
pub open spec fn submit_error_message(reason: Seq<char>) -> Seq<char> {
    "Bir hata oluştu: "@ + reason + ", tekrar denemek ister misiniz?"@
}

/// The screen after a code was handed in for the user with the profile
/// `user_details`. After a success "yes" leads back to that user's menu.
pub open spec fn submitted_screen(
    user_details: UserDetailsView,
    outcome: Result<bool, Seq<char>>,
) -> ScreenView {
    match outcome {
        Ok(joined) => if joined {
            ScreenView::Prompt(
                PromptView::confirm(
                    "Başarılı!"@,
                    "Başarıyla yoklamaya katıldınız."@,
                    "Başarıyla yoklamaya katıldınız, devam etmek ister misiniz?"@,
                    Selection::Yes,
                    PromptActionView::switch_to(ScreenView::Home(HomeView::opening(user_details))),
                    PromptActionView::terminate(),
                ),
            )
        } else {
            ScreenView::Prompt(
                try_again_prompt("Geçersiz kod girdiniz, tekrar denemek ister misiniz?"@),
            )
        },
        Err(reason) => ScreenView::Prompt(try_again_prompt(submit_error_message(reason))),
    }
}

/// What a completed operation leads to.
pub struct Resolved {
    pub screen: ScreenView,
    pub host: HostView,
}

impl PendingOperationView {
    /// The next screen, and the host's resources, once this operation has
    /// come to `outcome`. For an outcome that the operation cannot have
    /// this is the placeholder screen.
    pub open spec fn resolved(self, outcome: OperationOutcomeView, host: HostView) -> Resolved {
        match (self, outcome) {
            (PendingOperationView::CheckSession, OperationOutcomeView::Session(o)) => Resolved {
                screen: startup_screen(o),
                host,
            },
            (
                PendingOperationView::ValidateAccount { account },
                OperationOutcomeView::Session(o),
            ) => Resolved { screen: validated_screen(account, o), host },
            (PendingOperationView::Login { creds }, OperationOutcomeView::Login(o)) => Resolved {
                screen: signed_in_screen(creds, o),
                host: signed_in_host(creds, o, host),
            },
            (
                PendingOperationView::SubmitCode { code, user_details },
                OperationOutcomeView::Submit(o),
            ) => Resolved { screen: submitted_screen(user_details, o), host },
            _ => Resolved { screen: ScreenView::Blank, host },
        }
    }
}

/// The tick count after one more tick. It starts over after the largest
/// count, which leaves the phase of an indicator of eight frames unbroken.
pub open spec fn next_tick(count: usize) -> usize {
    if count == usize::MAX {
        0
    } else {
        (count + 1) as usize
    }
}

impl LoadingView {
    /// The loading screen before its first tick.
    pub open spec fn fresh(message: Seq<char>, operation: PendingOperationView) -> LoadingView {
        LoadingView { message, exchange: Some(ExchangeView::start(operation)), spinner_state: 0 }
    }

    /// The operation that the screen waits for, until it is complete.
    pub open spec fn operation(self) -> Option<PendingOperationView> {
        match self.exchange {
            Some(x) => Some(x.operation),
            None => None,
        }
    }

    /// Whether a request was made whose reply the screen waits for.
    pub open spec fn awaits_reply(self) -> bool {
        match self.exchange {
            Some(x) => !(x.stage is Start),
            None => false,
        }
    }

    /// Whether the operation takes a step on a tick that brings `reply`:
    /// it does at its start, and whenever the reply to its request has
    /// come.
    pub open spec fn steps(self, reply: Option<ReplyView>) -> bool {
        match self.exchange {
            Some(x) => x.stage is Start || reply is Some,
            None => false,
        }
    }

    /// The screen with one more tick counted.
    pub open spec fn counted(self) -> LoadingView {
        LoadingView { spinner_state: next_tick(self.spinner_state), ..self }
    }
}

/// Whether `reply` is what a tick has from `probe`: where a reply is
/// awaited, what a call of `probe` returned, and where none is awaited,
/// nothing.
pub open spec fn probed<F>(awaited: bool, probe: F, reply: Option<Reply>) -> bool where
    F: FnOnce() -> Option<Reply>,
{
    if awaited {
        call_ensures(probe, (), reply)
    } else {
        reply is None
    }
}

/// How the loading screen handles one tick. It takes no notice of the
/// event. It counts the tick, and it advances its operation by at most one
/// step: at the start it makes the first request; while the reply to a
/// request has not come it waits; when the reply has come it makes the
/// next request, or, where the operation is complete, drops the operation
/// and switches to the screen that the outcome leads to.
pub open spec fn loading_step(v: LoadingView, host: HostView, reply: Option<ReplyView>) -> Handled<
    LoadingView,
> {
    if v.steps(reply) {
        match v.exchange.unwrap().advanced(reply) {
            ProgressView::Send(request, next) => Handled {
                state: LoadingView { exchange: Some(next), ..v.counted() },
                host: host.sending(request),
                action: ScreenActionView::Stay,
            },
            ProgressView::Done(operation, outcome) => Handled {
                state: LoadingView { exchange: None, ..v.counted() },
                host: operation.resolved(outcome, host).host,
                action: ScreenActionView::SwitchTo(operation.resolved(outcome, host).screen),
            },
        }
    } else {
        Handled { state: v.counted(), host, action: ScreenActionView::Stay }
    }
}

fn sign_in_again(header: &str, prompt: &str, login: LoginScreen) -> (r: Screen)
    ensures
        r@ == ScreenView::Prompt(sign_in_again_prompt(header@, prompt@, login@)),
{
    Screen::Prompt(
        PromptScreen::confirm(
            header,
            "Giriş Yap",
            prompt.to_owned(),
            Selection::Yes,
            PromptAction::switch_to(Screen::Login(login)),
            PromptAction::terminate(),
        ),
    )
}

fn try_again(prompt: String) -> (r: Screen)
    ensures
        r@ == ScreenView::Prompt(try_again_prompt(prompt@)),
{
    Screen::Prompt(
        PromptScreen::confirm(
            "Hata!",
            "Yoklamaya katılamadınız.",
            prompt,
            Selection::Yes,
            PromptAction::switch_to(Screen::EnterCode(EnterCodeScreen::new())),
            PromptAction::terminate(),
        ),
    )
}

impl PendingOperation {
    /// Whether `outcome` is a result that this operation can have.
    pub fn accepts(&self, outcome: &OperationOutcome) -> (r: bool)
        ensures
            r == self@.accepts(outcome@),
    {
        match self {
            PendingOperation::CheckSession => matches!(outcome, OperationOutcome::Session(_)),
            PendingOperation::ValidateAccount { .. } => matches!(outcome, OperationOutcome::Session(_)),
            PendingOperation::Login { .. } => matches!(outcome, OperationOutcome::Login(_)),
            PendingOperation::SubmitCode { .. } => matches!(outcome, OperationOutcome::Submit(_)),
        }
    }

    /// The screen that follows once this operation has come to `outcome`.
    /// An accepted sign-in is saved in the host's store on the way.
    pub fn resolve(&self, outcome: OperationOutcome, app: &mut App) -> (screen: Screen)
        requires
            self@.accepts(outcome@),
        ensures
            screen@ == self@.resolved(outcome@, old(app)@.host).screen,
            final(app)@ == (AppView {
                host: self@.resolved(outcome@, old(app)@.host).host,
                ..old(app)@
            }),
    {
        match self {
            PendingOperation::CheckSession => match outcome {
                OperationOutcome::Session(SessionOutcome::Authenticated(details)) => Screen::Home(
                    HomeScreen::new(details),
                ),
                OperationOutcome::Session(SessionOutcome::ProfileUnavailable) => sign_in_again(
                    "Deysis F*cker",
                    "Giriş bilginiz geçersiz, giriş yapmak ister misiniz?",
                    LoginScreen::default(),
                ),
                _ => sign_in_again(
                    "Deysis F*cker",
                    "Giriş bilginiz bulunamadı, giriş yapmak ister misiniz?",
                    LoginScreen::default(),
                ),
            },
            PendingOperation::ValidateAccount { account } => match outcome {
                OperationOutcome::Session(SessionOutcome::Authenticated(details)) => Screen::Home(
                    HomeScreen::new(details),
                ),
                _ => sign_in_again(
                    "Deysis TUI",
                    "Giriş bilginiz geçersiz, giriş yapmak ister misiniz?",
                    LoginScreen::with_creds(
                        UserCreds {
                            email: account.email.clone(),
                            password: account.password.clone(),
                        },
                    ),
                ),
            },
            PendingOperation::Login { creds } => match outcome {
                OperationOutcome::Login(LoginOutcome::Accepted { cookies, details }) => {
                    app.save_account(
                        UserCredentials {
                            email: creds.email.clone(),
                            password: creds.password.clone(),
                            cookies,
                        },
                    );
                    match details {
                        Some(d) => Screen::Home(HomeScreen::new(d)),
                        None => Screen::Login(
                            LoginScreen::with_error(
                                creds.email.clone(),
                                "Giriş başarısız: Kullanıcı bilgileri alınamadı.".to_owned(),
                            ),
                        ),
                    }
                },
                OperationOutcome::Login(LoginOutcome::Rejected(reason)) => Screen::Login(
                    LoginScreen::with_error(
                        creds.email.clone(),
                        join2("Giriş başarısız: ", reason.as_str()),
                    ),
                ),
                _ => Screen::Blank(BlankScreen),
            },
            PendingOperation::SubmitCode { code, user_details } => match outcome {
                OperationOutcome::Submit(Ok(joined)) => {
                    if joined {
                        Screen::Prompt(
                            PromptScreen::confirm(
                                "Başarılı!",
                                "Başarıyla yoklamaya katıldınız.",
                                "Başarıyla yoklamaya katıldınız, devam etmek ister misiniz?".to_owned(),
                                Selection::Yes,
                                PromptAction::switch_to(
                                    Screen::Home(HomeScreen::new(user_details.clone())),
                                ),
                                PromptAction::terminate(),
                            ),
                        )
                    } else {
                        try_again("Geçersiz kod girdiniz, tekrar denemek ister misiniz?".to_owned())
                    }
                },
                OperationOutcome::Submit(Err(reason)) => try_again(
                    join3("Bir hata oluştu: ", reason.as_str(), ", tekrar denemek ister misiniz?"),
                ),
                _ => Screen::Blank(BlankScreen),
            },
        }
    }
}

/// The loading screen: a status message, the operation under way, and
/// the count of the ticks it has seen. Once the operation is complete the
/// screen holds it no more.
#[derive(Debug, PartialEq, Eq)]
pub struct GenericLoadingScreen {
    message: String,
    exchange: Option<Exchange>,
    spinner_state: usize,
}

/// The view of a `GenericLoadingScreen`.
pub struct LoadingView {
    pub message: Seq<char>,
    pub exchange: Option<ExchangeView>,
    pub spinner_state: usize,
}

impl GenericLoadingScreen {
    pub closed spec fn view(&self) -> LoadingView {
        LoadingView {
            message: self.message@,
            exchange: match self.exchange {
                Some(x) => Some(x@),
                None => None,
            },
            spinner_state: self.spinner_state,
        }
    }

    /// A loading screen that has not seen a tick yet.
    pub fn new(message: String, operation: PendingOperation) -> (r: Self)
        ensures
            r@ == LoadingView::fresh(message@, operation@),
    {
        GenericLoadingScreen {
            message,
            exchange: Some(Exchange::start(operation)),
            spinner_state: 0,
        }
    }

    /// The status message.
    pub fn message(&self) -> (r: &String)
        ensures
            r@ == self@.message,
    {
        &self.message
    }

    /// The operation that the screen waits for, until it is complete.
    pub fn operation(&self) -> (r: Option<&PendingOperation>)
        ensures
            (match r {
                Some(operation) => Some(operation@),
                None => None,
            }) == self@.operation(),
    {
        match &self.exchange {
            Some(x) => Some(x.operation()),
            None => None,
        }
    }

    /// Whether a request was made whose reply the screen waits for.
    pub fn awaits_reply(&self) -> (r: bool)
        ensures
            r == self@.awaits_reply(),
    {
        match &self.exchange {
            Some(x) => x.awaits_reply(),
            None => false,
        }
    }

    /// The number of ticks that the screen has seen.
    pub fn spinner_state(&self) -> (r: usize)
        ensures
            r == self@.spinner_state,
    {
        self.spinner_state
    }

    /// Handles one tick. While the screen waits for the reply to a
    /// request, it calls `probe` once, which says what has come of the
    /// request: `None` while nothing has come of it yet. While it does not
    /// wait for a reply, it does not call `probe`.
    pub fn handle_event<F>(
        &mut self,
        app: &mut App,
        event: Option<Event>,
        probe: F,
    ) -> (action: ScreenAction) where F: FnOnce() -> Option<Reply>

        requires
            call_requires(probe, ()),
        ensures
            exists|reply: Option<Reply>| #[trigger]
                probed(old(self)@.awaits_reply(), probe, reply) && handled_by(
                    loading_step(old(self)@, old(app)@.host, reply_view(reply)),
                    final(self)@,
                    old(app)@,
                    final(app)@,
                    action@,
                ),
    {
        self.spinner_state = if self.spinner_state == usize::MAX {
            0
        } else {
            self.spinner_state + 1
        };
        let reply = if self.awaits_reply() {
            probe()
        } else {
            None
        };
        let ghost given = reply;
        assert(probed(old(self)@.awaits_reply(), probe, given));
        let steps = match &self.exchange {
            Some(x) => !x.awaits_reply() || reply.is_some(),
            None => false,
        };
        if !steps {
            return ScreenAction::Stay;
        }
        let exchange = self.exchange.take().unwrap();
        match exchange.advance(reply) {
            Progress::Send(request, next) => {
                self.exchange = Some(next);
                app.send(request);
                ScreenAction::Stay
            },
            Progress::Done(operation, outcome) => ScreenAction::SwitchTo(
                operation.resolve(outcome, app),
            ),
        }
    }
}

impl Clone for GenericLoadingScreen {
    fn clone(&self) -> (r: Self)
        ensures
            r@ == self@,
    {
        GenericLoadingScreen {
            message: self.message.clone(),
            exchange: match &self.exchange {
                Some(x) => Some(x.clone()),
                None => None,
            },
            spinner_state: self.spinner_state,
        }
    }
}

} // verus!
