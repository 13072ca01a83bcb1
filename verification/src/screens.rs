//! The screens and the transitions between them.
//!
//! Exactly one screen is active at a time. It handles one event, or one
//! tick without input, and answers with a [`ScreenAction`]: stay, switch to
//! another screen, switch through a pending operation, or terminate. A
//! screen never replaces the active screen itself.

pub mod account_selector;
pub mod blank;
pub mod home;
pub mod loading;
pub mod login;
pub mod prompt;

use crate::app::{App, AppView, HostView};
use crate::event::Event;
use crate::requests::exchange::{reply_view, Reply, ReplyView};
use crate::screens::account_selector::{
    account_selector_step, AccountSelectorScreen, AccountSelectorView,
};
use crate::screens::blank::BlankScreen;
use crate::screens::home::enter_code::{
    enter_code_step, reads_profile, EnterCodeScreen, EnterCodeView,
};
use crate::screens::home::{home_step, HomeScreen, HomeView};
use crate::screens::loading::{
    loading_step, probed, GenericLoadingScreen, LoadingView, PendingOperation,
    PendingOperationView,
};
use crate::screens::login::{login_step, LoginScreen, LoginView};
use crate::screens::prompt::{prompt_step, PromptScreen, PromptView};
use vstd::prelude::*;

verus! {

/// One state of the user interface.
#[derive(Debug, PartialEq, Eq)]
pub enum Screen {
    Blank(BlankScreen),
    AccountSelector(AccountSelectorScreen),
    Login(LoginScreen),
    Home(HomeScreen),
    EnterCode(EnterCodeScreen),
    Prompt(PromptScreen),
    Loading(GenericLoadingScreen),
}

/// What a screen asks of the host after it has handled an event.
#[derive(Debug, PartialEq, Eq)]
pub enum ScreenAction {
    /// Keep the screen that handled the event.
    Stay,
    /// Make this screen the active one.
    SwitchTo(Screen),
    /// Run `operation`, showing `message` until it has produced the next
    /// screen.
    SwitchAsync { operation: PendingOperation, message: String },
    /// Leave the event loop.
    Terminate,
}

/// The view of a `Screen`.
pub enum ScreenView {
    Blank,
    AccountSelector(AccountSelectorView),
    Login(LoginView),
    Home(HomeView),
    EnterCode(EnterCodeView),
    Prompt(PromptView),
    Loading(LoadingView),
}

/// The view of a `ScreenAction`.
pub enum ScreenActionView {
    Stay,
    SwitchTo(ScreenView),
    SwitchAsync { operation: PendingOperationView, message: Seq<char> },
    Terminate,
}

/// Which kind of screen a screen is, whatever it holds.
#[derive(Clone, Copy, Debug, PartialEq, Eq, Structural)]
pub enum ScreenKind {
    Blank,
    AccountSelector,
    Login,
    Home,
    EnterCode,
    Prompt,
    Loading,
}

/// The result of handling one event: the handling screen afterwards, the
/// host's resources afterwards, and the action asked for.
pub struct Handled<S> {
    pub state: S,
    pub host: HostView,
    pub action: ScreenActionView,
}

/// Whether a handler that started on the host `before` has done what
/// `expected` says: `state` is the screen afterwards, `after` is the host
/// afterwards, with its own slot for the active screen untouched, and
/// `action` is what the handler returned.
pub open spec fn handled_by<S>(
    expected: Handled<S>,
    state: S,
    before: AppView,
    after: AppView,
    action: ScreenActionView,
) -> bool {
    &&& state == expected.state
    &&& after == (AppView { screen: before.screen, host: expected.host })
    &&& action == expected.action
}

impl ScreenView {
    /// Which kind of screen this is.
    pub open spec fn kind(self) -> ScreenKind {
        match self {
            ScreenView::Blank => ScreenKind::Blank,
            ScreenView::AccountSelector(_) => ScreenKind::AccountSelector,
            ScreenView::Login(_) => ScreenKind::Login,
            ScreenView::Home(_) => ScreenKind::Home,
            ScreenView::EnterCode(_) => ScreenKind::EnterCode,
            ScreenView::Prompt(_) => ScreenKind::Prompt,
            ScreenView::Loading(_) => ScreenKind::Loading,
        }
    }

    /// Whether this screen, or a screen that it can lead to without the
    /// home screen in between, reads the host's user profile.
    pub open spec fn needs_profile(self) -> bool
        decreases self,
    {
        match self {
            ScreenView::EnterCode(_) => true,
            ScreenView::Prompt(p) => p.yes_action.needs_profile() || p.no_action.needs_profile(),
            ScreenView::Loading(l) => l.operation() matches Some(operation)
                && operation is SubmitCode,
            _ => false,
        }
    }

    /// Whether this screen is a loading screen that waits for the reply
    /// to a request.
    pub open spec fn awaits_reply(self) -> bool {
        match self {
            ScreenView::Loading(l) => l.awaits_reply(),
            _ => false,
        }
    }

    /// Whether this screen can handle `event` with these resources: the
    /// code entry wants the host to hold a profile on the events on which
    /// it reads one.
    pub open spec fn ready(self, host: HostView, event: Option<Event>) -> bool {
        match self {
            ScreenView::EnterCode(v) => reads_profile(v, event) ==> host.user_details is Some,
            _ => true,
        }
    }
}

/// How a screen handles one tick: each kind of screen in its own way. Only
/// the loading screen looks at the reply, and it looks at nothing else.
pub open spec fn screen_step(
    s: ScreenView,
    host: HostView,
    event: Option<Event>,
    reply: Option<ReplyView>,
) -> Handled<ScreenView> {
    match s {
        ScreenView::Blank => Handled { state: s, host, action: ScreenActionView::Stay },
        ScreenView::AccountSelector(v) => {
            let h = account_selector_step(v, host, event);
            Handled { state: ScreenView::AccountSelector(h.state), host: h.host, action: h.action }
        },
        ScreenView::Login(v) => {
            let h = login_step(v, host, event);
            Handled { state: ScreenView::Login(h.state), host: h.host, action: h.action }
        },
        ScreenView::Home(v) => {
            let h = home_step(v, host, event);
            Handled { state: ScreenView::Home(h.state), host: h.host, action: h.action }
        },
        ScreenView::EnterCode(v) => {
            let h = enter_code_step(v, host, event);
            Handled { state: ScreenView::EnterCode(h.state), host: h.host, action: h.action }
        },
        ScreenView::Prompt(v) => {
            let h = prompt_step(v, host, event);
            Handled { state: ScreenView::Prompt(h.state), host: h.host, action: h.action }
        },
        ScreenView::Loading(v) => {
            let h = loading_step(v, host, reply);
            Handled { state: ScreenView::Loading(h.state), host: h.host, action: h.action }
        },
    }
}

impl ScreenActionView {
    /// Whether this action leads to a screen that reads the host's user
    /// profile.
    pub open spec fn needs_profile(self) -> bool
        decreases self,
    {
        match self {
            ScreenActionView::SwitchTo(s) => s.needs_profile(),
            ScreenActionView::SwitchAsync { operation, message } => operation is SubmitCode,
            _ => false,
        }
    }
}

impl Screen {
    pub open spec fn view(&self) -> ScreenView
        decreases self,
    {
        match self {
            Screen::Blank(_) => ScreenView::Blank,
            Screen::AccountSelector(s) => ScreenView::AccountSelector(s@),
            Screen::Login(s) => ScreenView::Login(s@),
            Screen::Home(s) => ScreenView::Home(s@),
            Screen::EnterCode(s) => ScreenView::EnterCode(s@),
            Screen::Prompt(s) => ScreenView::Prompt(s.view()),
            Screen::Loading(s) => ScreenView::Loading(s@),
        }
    }

    /// Handles one tick: `event` is the input that came with it, if any.
    /// A loading screen that waits for the reply to a request calls `probe`
    /// once, which says what has come of the request; no other screen
    /// calls it.
    pub fn handle_event<F>(
        &mut self,
        app: &mut App,
        event: Option<Event>,
        probe: F,
    ) -> (action: ScreenAction) where F: FnOnce() -> Option<Reply>

        requires
            old(self)@.ready(old(app)@.host, event),
            call_requires(probe, ()),
        ensures
            exists|reply: Option<Reply>| #[trigger]
                probed(old(self)@.awaits_reply(), probe, reply) && handled_by(
                    screen_step(old(self)@, old(app)@.host, event, reply_view(reply)),
                    final(self)@,
                    old(app)@,
                    final(app)@,
                    action@,
                ),
    {
        let ghost mut reply: Option<Reply> = None;
        let action = match self {
            Screen::Loading(s) => {
                let ghost before = s@;
                let action = s.handle_event(app, event, probe);
                proof {
                    reply =
                    choose|reply: Option<Reply>|
                        {
                            &&& #[trigger] probed(before.awaits_reply(), probe, reply)
                            &&& handled_by(
                                loading_step(before, old(app)@.host, reply_view(reply)),
                                s@,
                                old(app)@,
                                app@,
                                action@,
                            )
                        };
                }
                action
            },
            Screen::Blank(s) => s.handle_event(event),
            Screen::AccountSelector(s) => s.handle_event(app, event),
            Screen::Login(s) => s.handle_event(app, event),
            Screen::Home(s) => s.handle_event(app, event),
            Screen::EnterCode(s) => s.handle_event(app, event),
            Screen::Prompt(s) => s.handle_event(app, event),
        };
        assert(probed(old(self)@.awaits_reply(), probe, reply));
        action
    }

    /// Which kind of screen this is.
    pub fn kind(&self) -> (r: ScreenKind)
        ensures
            r == self@.kind(),
    {
        match self {
            Screen::Blank(_) => ScreenKind::Blank,
            Screen::AccountSelector(_) => ScreenKind::AccountSelector,
            Screen::Login(_) => ScreenKind::Login,
            Screen::Home(_) => ScreenKind::Home,
            Screen::EnterCode(_) => ScreenKind::EnterCode,
            Screen::Prompt(_) => ScreenKind::Prompt,
            Screen::Loading(_) => ScreenKind::Loading,
        }
    }
}

impl ScreenAction {
    pub open spec fn view(&self) -> ScreenActionView
        decreases self,
    {
        match self {
            ScreenAction::Stay => ScreenActionView::Stay,
            ScreenAction::SwitchTo(s) => ScreenActionView::SwitchTo(s.view()),
            ScreenAction::SwitchAsync { operation, message } => ScreenActionView::SwitchAsync {
                operation: operation@,
                message: message@,
            },
            ScreenAction::Terminate => ScreenActionView::Terminate,
        }
    }
}

impl Clone for Screen {
    fn clone(&self) -> (r: Self)
        ensures
            r@ == self@,
        decreases self,
    {
        match self {
            Screen::Blank(_) => Screen::Blank(BlankScreen),
            Screen::AccountSelector(s) => Screen::AccountSelector(s.clone()),
            Screen::Login(s) => Screen::Login(s.clone()),
            Screen::Home(s) => Screen::Home(s.clone()),
            Screen::EnterCode(s) => Screen::EnterCode(s.clone()),
            Screen::Prompt(s) => Screen::Prompt(s.clone()),
            Screen::Loading(s) => Screen::Loading(s.clone()),
        }
    }
}

impl Clone for ScreenAction {
    fn clone(&self) -> (r: Self)
        ensures
            r@ == self@,
        decreases self,
    {
        match self {
            ScreenAction::Stay => ScreenAction::Stay,
            ScreenAction::SwitchTo(s) => ScreenAction::SwitchTo(s.clone()),
            ScreenAction::SwitchAsync { operation, message } => ScreenAction::SwitchAsync {
                operation: operation.clone(),
                message: message.clone(),
            },
            ScreenAction::Terminate => ScreenAction::Terminate,
        }
    }
}

} // verus!
