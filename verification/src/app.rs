//! The host: the one active screen and the resources that screens borrow
//! while they handle an event.

use crate::config::{
    accounts_view, unique_emails, upserted, without_email, Config, UserCredentials,
    UserCredentialsView,
};
use crate::event::{forward_event, forwarded, Event};
use crate::laws::lemma_profile_kept;
use crate::requests::exchange::{reply_view, Reply, ReplyView, Request, RequestView};
use crate::screens::blank::BlankScreen;
use crate::screens::loading::{
    operation_view, probed, GenericLoadingScreen, LoadingView, PendingOperation,
    PendingOperationView,
};
use crate::screens::{
    handled_by, screen_step, Handled, Screen, ScreenAction, ScreenActionView, ScreenView,
};
use crate::user::{profile_view, UserDetails, UserDetailsView};
use vstd::prelude::*;

verus! {

/// The resources that the host lends to the active screen.
pub struct HostView {
    /// The profile of the signed-in user, once a home screen has seen it.
    pub user_details: Option<UserDetailsView>,
    /// The saved accounts.
    pub accounts: Seq<UserCredentialsView>,
    /// Whether the saved accounts were changed since they were last
    /// written out.
    pub unsaved: bool,
    /// The request that is to be made next, until it is handed on.
    pub outbox: Option<RequestView>,
}

/// The view of an `App`.
pub struct AppView {
    pub screen: ScreenView,
    pub host: HostView,
}

impl HostView {
    /// The host's resources once `details` was offered as the profile: a
    /// profile that is already there stays.
    pub open spec fn remembering(self, details: UserDetailsView) -> HostView {
        if self.user_details is Some {
            self
        } else {
            HostView { user_details: Some(details), ..self }
        }
    }

    /// The host's resources once the account for `email` was deleted.
    pub open spec fn deleting(self, email: Seq<char>) -> HostView {
        HostView { accounts: without_email(self.accounts, email), unsaved: true, ..self }
    }

    /// The host's resources once `creds` was saved.
    pub open spec fn saving(self, creds: UserCredentialsView) -> HostView {
        HostView { accounts: upserted(self.accounts, creds), unsaved: true, ..self }
    }

    /// The host's resources once `request` was put down to be made.
    pub open spec fn sending(self, request: RequestView) -> HostView {
        HostView { outbox: Some(request), ..self }
    }
}

/// What a tick asks of the surrounding program.
#[derive(Debug, PartialEq, Eq)]
pub struct Directive {
    /// Whether to leave the event loop.
    pub exit: bool,
    /// The request to make, whose reply is handed to a later tick once it
    /// has come.
    pub request: Option<Request>,
    /// Whether the saved accounts have to be written out.
    pub persist: bool,
}

/// The view of a `Directive`.
pub struct DirectiveView {
    pub exit: bool,
    pub request: Option<RequestView>,
    pub persist: bool,
}

impl Directive {
    pub open spec fn view(&self) -> DirectiveView {
        DirectiveView {
            exit: self.exit,
            request: match self.request {
                Some(r) => Some(r@),
                None => None,
            },
            persist: self.persist,
        }
    }
}

/// The message shown while the session found at start-up is checked.
pub open spec fn startup_message() -> Seq<char> {
    "Giriş Bilgileri Kontrol Ediliyor..."@
}

impl AppView {
    /// The application once the action of a handled tick is applied: after
    /// `Stay` the screen that handled the tick is active again, after
    /// `SwitchTo` the new screen is, after `SwitchAsync` a loading screen
    /// that has not seen a tick yet, and after `Terminate` the placeholder
    /// is left in the slot. The request to make and the change of the
    /// saved accounts are handed on with the directive, so neither is
    /// outstanding afterwards.
    pub open spec fn applied(h: Handled<ScreenView>) -> AppView {
        AppView {
            screen: match h.action {
                ScreenActionView::Stay => h.state,
                ScreenActionView::SwitchTo(next) => next,
                ScreenActionView::SwitchAsync { operation, message } => ScreenView::Loading(
                    LoadingView::fresh(message, operation),
                ),
                ScreenActionView::Terminate => ScreenView::Blank,
            },
            host: HostView { unsaved: false, outbox: None, ..h.host },
        }
    }

    /// What the surrounding program is asked to do after a handled tick.
    pub open spec fn directed(h: Handled<ScreenView>) -> DirectiveView {
        DirectiveView {
            exit: h.action is Terminate,
            request: h.host.outbox,
            persist: h.host.unsaved,
        }
    }

    /// What the active screen makes of a tick on which `polled` came from
    /// the input and `reply` from the request under way. The screen gets to
    /// see of `polled` only what is forwarded: key presses and events that
    /// are no key events.
    pub open spec fn handled(self, polled: Option<Event>, reply: Option<ReplyView>) -> Handled<
        ScreenView,
    > {
        screen_step(self.screen, self.host, forwarded(polled), reply)
    }

    /// The application after one tick.
    pub open spec fn after_tick(self, polled: Option<Event>, reply: Option<ReplyView>) -> AppView {
        AppView::applied(self.handled(polled, reply))
    }

    /// What one tick asks of the surrounding program.
    pub open spec fn directive(self, polled: Option<Event>, reply: Option<ReplyView>) -> DirectiveView {
        AppView::directed(self.handled(polled, reply))
    }

    /// Whether a tick that brings `polled` and `reply` leads from this
    /// application to `after` and asks `d` of the surrounding program.
    pub open spec fn ticks_to(
        self,
        polled: Option<Event>,
        reply: Option<ReplyView>,
        after: AppView,
        d: DirectiveView,
    ) -> bool {
        after == self.after_tick(polled, reply) && d == self.directive(polled, reply)
    }

    /// The operation that the active screen waits for, if it is a loading
    /// screen whose operation is not complete.
    pub open spec fn pending_operation(self) -> Option<PendingOperationView> {
        match self.screen {
            ScreenView::Loading(l) => l.operation(),
            _ => None,
        }
    }

    /// Whether the active screen is a loading screen that waits for the
    /// reply to a request.
    pub open spec fn awaits_reply(self) -> bool {
        self.screen.awaits_reply()
    }

    /// A screen that reads the profile is active only while the host holds
    /// one.
    pub open spec fn wf(self) -> bool {
        self.screen.needs_profile() ==> self.host.user_details is Some
    }

    /// The application as it starts on the saved `accounts`: it checks the
    /// session that the client holds.
    pub open spec fn startup(accounts: Seq<UserCredentialsView>) -> AppView {
        AppView {
            screen: ScreenView::Loading(
                LoadingView::fresh(startup_message(), PendingOperationView::CheckSession),
            ),
            host: HostView { user_details: None, accounts, unsaved: false, outbox: None },
        }
    }
}

/// The application: the active screen, the profile of the signed-in user
/// and the saved accounts. A screen that reads the profile is active only
/// while there is one.
pub struct App {
    screen: Screen,
    user_details: Option<UserDetails>,
    config: Config,
    unsaved: bool,
    outbox: Option<Request>,
}

impl App {
    #[verifier::type_invariant]
    spec fn profile_loaded(&self) -> bool {
        self.screen@.needs_profile() ==> self.user_details is Some
    }

    pub closed spec fn view(&self) -> AppView {
        AppView {
            screen: self.screen@,
            host: HostView {
                user_details: profile_view(self.user_details),
                accounts: self.config@,
                unsaved: self.unsaved,
                outbox: match self.outbox {
                    Some(r) => Some(r@),
                    None => None,
                },
            },
        }
    }

    /// The application at start-up.
    pub fn init(config: Config) -> (r: App)
        ensures
            r@ == AppView::startup(config@),
    {
        let screen = Screen::Loading(
            GenericLoadingScreen::new(
                "Giriş Bilgileri Kontrol Ediliyor...".to_owned(),
                PendingOperation::CheckSession,
            ),
        );
        App { screen, user_details: None, config, unsaved: false, outbox: None }
    }

    /// Whether the active screen is a loading screen that waits for the
    /// reply to a request.
    pub fn awaits_reply(&self) -> (r: bool)
        ensures
            r == self@.awaits_reply(),
    {
        match &self.screen {
            Screen::Loading(l) => l.awaits_reply(),
            _ => false,
        }
    }

    /// A copy of the operation that the active screen waits for.
    pub fn pending_operation(&self) -> (r: Option<PendingOperation>)
        ensures
            operation_view(r) == self@.pending_operation(),
    {
        match &self.screen {
            Screen::Loading(l) => match l.operation() {
                Some(operation) => Some(operation.clone()),
                None => None,
            },
            _ => None,
        }
    }

    /// One turn of the event loop after the screen was drawn and the input
    /// was polled. Of the input only key presses and events that are no
    /// key events are forwarded. The active screen is taken out of its
    /// slot, a placeholder standing in for it, and handles the tick with
    /// the application lent to it; then its action is applied.
    ///
    /// `polled` is the input of this tick, if there was any. `probe` says
    /// what has come of the request that an earlier tick asked for, `None`
    /// while nothing has come of it yet. It is called once on a tick on
    /// which the active screen waits for that reply, and not at all on any
    /// other tick.
    pub fn tick<F>(&mut self, polled: Option<Event>, probe: F) -> (d: Directive) where
        F: FnOnce() -> Option<Reply>

        requires
            call_requires(probe, ()),
        ensures
            exists|reply: Option<Reply>| #[trigger]
                probed(old(self)@.awaits_reply(), probe, reply) && old(self)@.ticks_to(
                    polled,
                    reply_view(reply),
                    final(self)@,
                    d@,
                ),
            final(self)@.wf(),
    {
        let event = forward_event(polled);
        proof {
            use_type_invariant(&*self);
            assert forall|reply: Option<Reply>|
                AppView::applied(
                    #[trigger] screen_step(self@.screen, self@.host, event, reply_view(reply)),
                ).wf() by {
                lemma_profile_kept(self@.screen, self@.host, event, reply_view(reply));
            }
        }
        let mut current = Screen::Blank(BlankScreen);
        std::mem::swap(&mut self.screen, &mut current);
        let ghost screen = current@;
        let action = current.handle_event(self, event, probe);
        let ghost reply = choose|reply: Option<Reply>|
            {
                &&& #[trigger] probed(screen.awaits_reply(), probe, reply)
                &&& handled_by(
                    screen_step(screen, old(self)@.host, event, reply_view(reply)),
                    current@,
                    (AppView { screen: ScreenView::Blank, ..old(self)@ }),
                    self@,
                    action@,
                )
            };
        assert(probed(old(self)@.awaits_reply(), probe, reply));
        let persist = self.unsaved;
        self.unsaved = false;
        let mut request = None;
        std::mem::swap(&mut self.outbox, &mut request);
        match action {
            ScreenAction::Stay => {
                self.screen = current;
                Directive { exit: false, request, persist }
            },
            ScreenAction::SwitchTo(next) => {
                self.screen = next;
                Directive { exit: false, request, persist }
            },
            ScreenAction::SwitchAsync { operation, message } => {
                self.screen = Screen::Loading(GenericLoadingScreen::new(message, operation));
                Directive { exit: false, request, persist }
            },
            ScreenAction::Terminate => Directive { exit: true, request, persist },
        }
    }

    /// The active screen.
    pub fn screen(&self) -> (r: &Screen)
        ensures
            r@ == self@.screen,
            r@.needs_profile() ==> self@.host.user_details is Some,
    {
        proof {
            use_type_invariant(self);
        }
        &self.screen
    }

    /// The saved accounts.
    pub fn config(&self) -> (r: &Config)
        ensures
            r@ == self@.host.accounts,
    {
        &self.config
    }

    /// A copy of the profile of the signed-in user.
    pub fn user_details(&self) -> (r: Option<UserDetails>)
        ensures
            profile_view(r) == self@.host.user_details,
    {
        match &self.user_details {
            Some(d) => Some(d.clone()),
            None => None,
        }
    }

    /// Whether the saved accounts were changed since they were last
    /// written out.
    pub fn unsaved(&self) -> (r: bool)
        ensures
            r == self@.host.unsaved,
    {
        self.unsaved
    }

    /// A copy of the saved accounts.
    pub fn accounts(&self) -> (r: Vec<UserCredentials>)
        ensures
            accounts_view(r@) == self@.host.accounts,
            unique_emails(self@.host.accounts),
    {
        self.config.accounts()
    }

    /// Makes `details` the profile of the signed-in user unless there is
    /// one already.
    pub fn remember_profile(&mut self, details: &UserDetails)
        ensures
            final(self)@ == (AppView {
                host: old(self)@.host.remembering(details@),
                ..old(self)@
            }),
            final(self)@.host.user_details is Some,
    {
        if self.user_details.is_none() {
            self.user_details = Some(details.clone());
        }
    }

    /// Deletes the account for `email` from the saved accounts.
    pub fn delete_account(&mut self, email: &String)
        ensures
            final(self)@ == (AppView { host: old(self)@.host.deleting(email@), ..old(self)@ }),
    {
        proof {
            use_type_invariant(&*self);
        }
        let mut config = Config::new();
        std::mem::swap(&mut self.config, &mut config);
        let _ = config.remove(email);
        self.config = config;
        self.unsaved = true;
    }

    /// Saves `creds` under its address, in place of what was saved there.
    pub fn save_account(&mut self, creds: UserCredentials)
        ensures
            final(self)@ == (AppView { host: old(self)@.host.saving(creds@), ..old(self)@ }),
    {
        proof {
            use_type_invariant(&*self);
        }
        let mut config = Config::new();
        std::mem::swap(&mut self.config, &mut config);
        config.insert(creds);
        self.config = config;
        self.unsaved = true;
    }

    /// Puts `request` down to be made; the tick hands it on.
    pub fn send(&mut self, request: Request)
        ensures
            final(self)@ == (AppView { host: old(self)@.host.sending(request@), ..old(self)@ }),
    {
        proof {
            use_type_invariant(&*self);
        }
        self.outbox = Some(request);
    }
}

} // verus!
