//! What holds of the screens and of the host whatever the input.

use crate::app::{AppView, HostView};
use crate::event::{forwarded, key_of, Event, KeyCode};
use crate::screens::account_selector::{
    account_selector_step, sign_in_prompt, AccountSelectorView,
};
use crate::screens::home::HomeView;
use crate::screens::home::enter_code::{enter_code_step, submitting_message, EnterCodeView};
use crate::requests::exchange::{ExchangeView, ProgressView, ReplyView};
use crate::screens::loading::{
    loading_step, next_tick, LoadingView, LoginOutcomeView, OperationOutcomeView,
    PendingOperationView,
};
use crate::screens::login::{LoginView, UserCredsView};
use crate::screens::prompt::PromptActionView;
use crate::screens::{screen_step, ScreenActionView, ScreenView};
use crate::text::is_digit;
use crate::user::UserDetailsView;
use vstd::prelude::*;

verus! {

/// A tick never takes the host's profile away, and where the host held a
/// profile whenever the active screen read it, the same holds of the screen
/// that is active after the tick.
pub proof fn lemma_profile_kept(
    s: ScreenView,
    host: HostView,
    event: Option<Event>,
    reply: Option<ReplyView>,
)
    requires
        s.needs_profile() ==> host.user_details is Some,
    ensures
        host.user_details is Some ==> screen_step(s, host, event, reply).host.user_details is Some,
        screen_step(s, host, event, reply).state.needs_profile() ==> screen_step(
            s,
            host,
            event,
            reply,
        ).host.user_details is Some,
        screen_step(s, host, event, reply).action.needs_profile() ==> screen_step(
            s,
            host,
            event,
            reply,
        ).host.user_details is Some,
        AppView::applied(screen_step(s, host, event, reply)).wf(),
{
    // The screens that a prompt or an outcome leads to lie a few answers deep.
    reveal_with_fuel(ScreenView::needs_profile, 3);
    reveal_with_fuel(ScreenActionView::needs_profile, 3);
    reveal_with_fuel(PromptActionView::needs_profile, 3);
}

/// One tick as the host sees it: the input that was polled, and what came
/// of the request under way.
pub struct Tick {
    pub polled: Option<Event>,
    pub reply: Option<ReplyView>,
}

/// The application after the ticks of `ticks`, one after the other.
pub open spec fn after_ticks(app: AppView, ticks: Seq<Tick>) -> AppView
    decreases ticks.len(),
{
    if ticks.len() == 0 {
        app
    } else {
        after_ticks(app, ticks.drop_last()).after_tick(ticks.last().polled, ticks.last().reply)
    }
}

/// Whether the screen that is active at each tick of `ticks` answers it
/// with `Stay`.
pub open spec fn all_stay(app: AppView, ticks: Seq<Tick>) -> bool
    decreases ticks.len(),
{
    ticks.len() > 0 ==> {
        &&& all_stay(app, ticks.drop_last())
        &&& after_ticks(app, ticks.drop_last()).handled(
            ticks.last().polled,
            ticks.last().reply,
        ).action is Stay
    }
}

/// Whether no tick of `ticks` brought a reply.
pub open spec fn no_reply_in(ticks: Seq<Tick>) -> bool {
    forall|i: int| 0 <= i < ticks.len() ==> (#[trigger] ticks[i]).reply is None
}

/// The tick count `count` after `n` more ticks.
pub open spec fn ticked(count: usize, n: nat) -> usize
    decreases n,
{
    if n == 0 {
        count
    } else {
        next_tick(ticked(count, (n - 1) as nat))
    }
}

/// A screen that answers a tick with `Stay` is the active screen after the
/// tick, in the state in which its handler left it, and it is a screen of
/// the kind that it was before.
pub proof fn law_stay_restores_screen(app: AppView, polled: Option<Event>, reply: Option<ReplyView>)
    requires
        app.handled(polled, reply).action is Stay,
    ensures
        app.after_tick(polled, reply).screen == app.handled(polled, reply).state,
        app.after_tick(polled, reply).screen.kind() == app.screen.kind(),
        !app.directive(polled, reply).exit,
{
}

/// The screen `screen` after it has handled the ticks of `ticks` itself,
/// one after the other, each with the host's resources as they are when
/// the tick comes to the application `app`.
pub open spec fn handled_through(app: AppView, ticks: Seq<Tick>) -> ScreenView
    decreases ticks.len(),
{
    if ticks.len() == 0 {
        app.screen
    } else {
        screen_step(
            handled_through(app, ticks.drop_last()),
            after_ticks(app, ticks.drop_last()).host,
            forwarded(ticks.last().polled),
            ticks.last().reply,
        ).state
    }
}

/// Through any sequence of ticks that are all answered with `Stay`, the
/// active screen remains the screen that it was: after the ticks it is
/// that same screen in the state in which its own handler left it, tick
/// after tick, and so a screen of the same kind. No other screen was put
/// in its place in between.
pub proof fn law_stay_keeps_screen(app: AppView, ticks: Seq<Tick>)
    requires
        all_stay(app, ticks),
    ensures
        after_ticks(app, ticks).screen == handled_through(app, ticks),
        ticks.len() > 0 ==> after_ticks(app, ticks).screen == after_ticks(
            app,
            ticks.drop_last(),
        ).handled(ticks.last().polled, ticks.last().reply).state,
        after_ticks(app, ticks).screen.kind() == app.screen.kind(),
    decreases ticks.len(),
{
    if ticks.len() > 0 {
        law_stay_keeps_screen(app, ticks.drop_last());
        law_stay_restores_screen(
            after_ticks(app, ticks.drop_last()),
            ticks.last().polled,
            ticks.last().reply,
        );
    }
}

/// After a tick that is answered with `SwitchAsync`, the active screen is
/// a loading screen with that message that has not seen a tick yet, and
/// whose operation is the one that was handed over, at its start.
pub proof fn law_switch_async_shows_loading(
    app: AppView,
    polled: Option<Event>,
    reply: Option<ReplyView>,
)
    requires
        app.handled(polled, reply).action is SwitchAsync,
    ensures
        app.after_tick(polled, reply).screen == ScreenView::Loading(
            LoadingView::fresh(
                app.handled(polled, reply).action->message,
                app.handled(polled, reply).action->operation,
            ),
        ),
        app.after_tick(polled, reply).pending_operation() == Some(
            app.handled(polled, reply).action->operation,
        ),
        !app.after_tick(polled, reply).awaits_reply(),
        !app.directive(polled, reply).exit,
{
}

/// The first tick of a loading screen makes the first request of its
/// operation and leaves the loading screen in place, whatever the tick
/// brings: no screen follows a loading screen before its operation has
/// taken a step.
pub proof fn law_operation_is_started(
    app: AppView,
    message: Seq<char>,
    operation: PendingOperationView,
    polled: Option<Event>,
    reply: Option<ReplyView>,
)
    requires
        app.screen == ScreenView::Loading(LoadingView::fresh(message, operation)),
    ensures
        app.handled(polled, reply).action is Stay,
        app.after_tick(polled, reply).screen is Loading,
        app.after_tick(polled, reply).pending_operation() == Some(operation),
        app.after_tick(polled, reply).awaits_reply(),
        ExchangeView::start(operation).first_request() matches ProgressView::Send(request, next)
            && app.directive(polled, reply).request == Some(request),
{
}

/// No operation resolves to a loading screen.
pub proof fn law_resolved_is_not_loading(
    operation: PendingOperationView,
    outcome: OperationOutcomeView,
    host: HostView,
)
    ensures
        !(operation.resolved(outcome, host).screen is Loading),
{
}

/// The loading screen advances its operation by exactly one step per tick
/// until the operation is complete. It counts every tick, whatever the
/// event. At the start the step is the first request. After that the step
/// is to look for the reply: while none has come, the screen stays as it
/// is and asks for nothing; when one has come, the operation moves on to
/// its next request, or it is complete. Then the screen holds the
/// operation no more and switches to a screen that is no loading screen,
/// so that nothing is left to wait for.
pub proof fn law_one_step_per_tick(app: AppView, polled: Option<Event>, reply: Option<ReplyView>)
    requires
        app.screen is Loading,
        app.screen->Loading_0.exchange is Some,
    ensures
        ({
            let l = app.screen->Loading_0;
            let h = app.handled(polled, reply);
            let x = l.exchange.unwrap();
            &&& h.state is Loading
            &&& h.state->Loading_0.spinner_state == next_tick(l.spinner_state)
            &&& h.state->Loading_0.message == l.message
            &&& !l.steps(reply) ==> {
                &&& h.state == ScreenView::Loading(l.counted())
                &&& h.action is Stay
                &&& h.host == app.host
                &&& app.directive(polled, reply).request == app.host.outbox
            }
            &&& l.steps(reply) ==> match x.advanced(reply) {
                ProgressView::Send(request, next) => {
                    &&& h.state->Loading_0.exchange == Some(next)
                    &&& h.action is Stay
                    &&& app.directive(polled, reply).request == Some(request)
                    &&& app.after_tick(polled, reply).awaits_reply()
                },
                ProgressView::Done(operation, outcome) => {
                    &&& h.state->Loading_0.exchange is None
                    &&& h.action == ScreenActionView::SwitchTo(
                        operation.resolved(outcome, app.host).screen,
                    )
                    &&& !(app.after_tick(polled, reply).screen is Loading)
                    &&& app.after_tick(polled, reply).pending_operation() is None
                    &&& !app.after_tick(polled, reply).awaits_reply()
                },
            }
        }),
{
    let l = app.screen->Loading_0;
    if l.steps(reply) {
        match l.exchange.unwrap().advanced(reply) {
            ProgressView::Send(request, next) => {},
            ProgressView::Done(operation, outcome) => {
                law_resolved_is_not_loading(operation, outcome, app.host);
            },
        }
    }
}

/// A loading screen whose operation is complete takes no further step: it
/// only counts the ticks.
pub proof fn law_complete_operation_rests(
    l: LoadingView,
    host: HostView,
    reply: Option<ReplyView>,
)
    requires
        l.exchange is None,
    ensures
        loading_step(l, host, reply).state == l.counted(),
        loading_step(l, host, reply).action is Stay,
        loading_step(l, host, reply).host == host,
{
}

/// While a loading screen waits for a reply and none comes, it stays the
/// active screen, holds its operation at the stage at which it was, and has
/// counted one tick for each tick.
pub proof fn law_loading_waits_for_reply(app: AppView, ticks: Seq<Tick>)
    requires
        app.screen is Loading,
        app.awaits_reply(),
        no_reply_in(ticks),
    ensures
        after_ticks(app, ticks).screen == ScreenView::Loading(
            LoadingView {
                spinner_state: ticked(app.screen->Loading_0.spinner_state, ticks.len()),
                ..app.screen->Loading_0
            },
        ),
        all_stay(app, ticks),
    decreases ticks.len(),
{
    if ticks.len() > 0 {
        assert(ticks.last() == ticks[ticks.len() - 1]);
        assert forall|i: int| 0 <= i < ticks.drop_last().len() implies (
        #[trigger] ticks.drop_last()[i]).reply is None by {
            assert(ticks.drop_last()[i] == ticks[i]);
        }
        law_loading_waits_for_reply(app, ticks.drop_last());
    }
}

/// Where a loading screen that waits for a reply was active and no loading
/// screen is active any more, a reply has come: no screen follows a loading
/// screen before its operation has reported.
pub proof fn law_loading_left_after_reply(app: AppView, ticks: Seq<Tick>)
    requires
        app.screen is Loading,
        app.awaits_reply(),
        !(after_ticks(app, ticks).screen is Loading),
    ensures
        exists|i: int| 0 <= i < ticks.len() && (#[trigger] ticks[i]).reply is Some,
{
    if no_reply_in(ticks) {
        law_loading_waits_for_reply(app, ticks);
    }
}

/// Every operation comes to an end, whatever the replies: each request
/// leaves fewer requests to make, the operation is complete when the reply
/// to its last request has come, and what it comes to is a result that it
/// can have. No operation makes more than six requests.
pub proof fn law_operation_ends(x: ExchangeView, reply: Option<ReplyView>)
    requires
        x.wf(),
    ensures
        1 <= x.stage.requests_left() <= 6,
        x.stage.requests_left() == 1 ==> x.advanced(reply) is Done,
        (match x.advanced(reply) {
            ProgressView::Send(request, next) => {
                &&& next.wf()
                &&& next.operation == x.operation
                &&& !(next.stage is Start)
                &&& next.stage.requests_left() < x.stage.requests_left()
            },
            ProgressView::Done(operation, outcome) => {
                &&& operation == x.operation
                &&& operation.accepts(outcome)
            },
        }),
{
}

/// With no account in its list and none in the host's store, the account
/// chooser answers any tick by switching to the question whether to sign
/// in. It starts no operation and leaves the host's resources alone.
pub proof fn law_empty_store_asks_to_sign_in(
    v: AccountSelectorView,
    host: HostView,
    event: Option<Event>,
)
    requires
        v.accounts.len() == 0,
        host.accounts.len() == 0,
    ensures
        account_selector_step(v, host, event).action == ScreenActionView::SwitchTo(
            ScreenView::Prompt(sign_in_prompt()),
        ),
        account_selector_step(v, host, event).host == host,
        sign_in_prompt().yes_action.performed(host).1 == ScreenActionView::SwitchTo(
            ScreenView::Login(LoginView::empty()),
        ),
        sign_in_prompt().no_action.performed(host).1 == ScreenActionView::Terminate,
{
}

/// A sign-in that failed leads back to the sign-in form with the address
/// as it was typed, the password cleared, and an error message that is
/// not empty. That is so where the service refused, and where it accepted
/// and the profile could not be had.
pub proof fn law_failed_sign_in_clears_password(
    creds: UserCredsView,
    outcome: LoginOutcomeView,
    host: HostView,
)
    requires
        outcome is Rejected || outcome->details is None,
    ensures
        ({
            let screen = (PendingOperationView::Login { creds }).resolved(
                OperationOutcomeView::Login(outcome),
                host,
            ).screen;
            &&& screen is Login
            &&& screen->Login_0.user_creds.email == creds.email
            &&& screen->Login_0.user_creds.password.len() == 0
            &&& screen->Login_0.error_message is Some
            &&& screen->Login_0.error_message.unwrap().len() > 0
        }),
{
    reveal_strlit("Giriş başarısız: ");
    reveal_strlit("Giriş başarısız: Kullanıcı bilgileri alınamadı.");
}

/// A code that was taken leads to a question whose "yes" returns at once
/// to the menu of the user that the code was handed in for, with the
/// profile that the operation carried and the host's resources as they
/// are.
pub proof fn law_taken_code_returns_to_menu(
    code: Seq<char>,
    user_details: UserDetailsView,
    host: HostView,
)
    ensures
        ({
            let resolved = (PendingOperationView::SubmitCode { code, user_details }).resolved(
                OperationOutcomeView::Submit(Ok(true)),
                host,
            );
            &&& resolved.host == host
            &&& resolved.screen is Prompt
            &&& resolved.screen->Prompt_0.selected_action().performed(host) == (
                host,
                ScreenActionView::SwitchTo(ScreenView::Home(HomeView::opening(user_details))),
            )
        }),
{
}

/// The code entry keeps its code well formed; a character that is no digit
/// never makes the code longer; once the code is complete, typing changes
/// nothing; Enter does nothing while the code is incomplete, and hands a
/// complete code in with exactly one `SwitchAsync`, leaving the code as it
/// is.
pub proof fn law_code_entry(v: EnterCodeView, host: HostView, event: Option<Event>)
    requires
        v.wf(),
    ensures
        enter_code_step(v, host, event).state.wf(),
        enter_code_step(v, host, event).host == host,
        (match key_of(event) {
            Some(KeyCode::Char(c)) => {
                &&& !is_digit(c) ==> enter_code_step(v, host, event).state == v
                &&& v.complete() ==> enter_code_step(v, host, event).state == v
                &&& c != 'q' ==> enter_code_step(v, host, event).action is Stay
                &&& is_digit(c) && !v.complete() ==> enter_code_step(v, host, event).state.code
                    == v.code.push(c)
            },
            Some(KeyCode::Enter) => {
                &&& enter_code_step(v, host, event).state == v
                &&& !v.complete() ==> enter_code_step(v, host, event).action is Stay
                &&& v.complete() ==> enter_code_step(v, host, event).action
                    == ScreenActionView::SwitchAsync {
                    operation: PendingOperationView::SubmitCode {
                        code: v.code,
                        user_details: host.user_details.unwrap(),
                    },
                    message: submitting_message(),
                }
            },
            _ => true,
        }),
{
}

/// On a list that is not empty the selection of the account chooser stays
/// within the list and wraps around: up from the first account is the last,
/// down from the last is the first, and a step up and a step down cancel.
pub proof fn law_selection_wraps(v: AccountSelectorView, host: HostView, event: Option<Event>)
    requires
        v.wf(),
        v.accounts.len() > 0,
    ensures
        account_selector_step(v, host, event).state.wf(),
        account_selector_step(v, host, event).state.accounts == v.accounts,
        key_of(event) == Some(KeyCode::Up) ==> account_selector_step(v, host, event).state
            == v.moved_up(),
        key_of(event) == Some(KeyCode::Down) ==> account_selector_step(v, host, event).state
            == v.moved_down(),
        v.selected_account_idx == 0 ==> v.moved_up().selected_account_idx == v.accounts.len() - 1,
        v.selected_account_idx > 0 ==> v.moved_up().selected_account_idx == v.selected_account_idx
            - 1,
        v.selected_account_idx == v.accounts.len() - 1 ==> v.moved_down().selected_account_idx
            == 0,
        v.selected_account_idx < v.accounts.len() - 1 ==> v.moved_down().selected_account_idx
            == v.selected_account_idx + 1,
        v.moved_up().moved_down() == v,
        v.moved_down().moved_up() == v,
{
}

} // verus!
