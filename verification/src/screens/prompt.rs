//! The yes/no question, and what each answer leads to.

use crate::app::{App, HostView};
use crate::event::{event_key, key_of, Event, KeyCode};
use crate::screens::account_selector::{AccountSelectorScreen, AccountSelectorView};
use crate::screens::{handled_by, Handled, Screen, ScreenAction, ScreenActionView, ScreenView};
use crate::text::{byte_len, join2, repeat_char, repeated, text_len};
use vstd::prelude::*;
use vstd::string::*;

verus! {

/// The answer that is selected.
#[derive(Clone, Copy, Debug, PartialEq, Eq, Structural)]
pub enum Selection {
    Yes,
    No,
}

/// What an answer does when it is confirmed.
#[derive(Debug, PartialEq, Eq)]
pub enum PromptAction {
    /// Answer with this action.
    Perform(Box<ScreenAction>),
    /// Delete the account that is selected in this chooser from the host's
    /// store, and go back to a chooser on the accounts that are left.
    DeleteAccount(AccountSelectorScreen),
}

/// The view of a `PromptAction`.
pub enum PromptActionView {
    Perform(Box<ScreenActionView>),
    DeleteAccount(AccountSelectorView),
}

/// A question with two answers, one of them selected, and what each
/// answer does.
#[derive(Debug, PartialEq, Eq)]
pub struct PromptScreen {
    pub selection: Selection,
    pub header: String,
    pub title: String,
    pub prompt: String,
    pub yes_label: String,
    pub no_label: String,
    pub yes_action: PromptAction,
    pub no_action: PromptAction,
}

/// The view of a `PromptScreen`.
pub struct PromptView {
    pub selection: Selection,
    pub header: Seq<char>,
    pub title: Seq<char>,
    pub prompt: Seq<char>,
    pub yes_label: Seq<char>,
    pub no_label: Seq<char>,
    pub yes_action: PromptActionView,
    pub no_action: PromptActionView,
}

impl Selection {
    /// The other answer.
    pub open spec fn toggled(self) -> Selection {
        match self {
            Selection::Yes => Selection::No,
            Selection::No => Selection::Yes,
        }
    }

    /// The other answer.
    pub fn toggle(self) -> (r: Selection)
        ensures
            r == self.toggled(),
    {
        match self {
            Selection::Yes => Selection::No,
            Selection::No => Selection::Yes,
        }
    }
}

impl PromptActionView {
    /// The answer that leaves the application.
    pub open spec fn terminate() -> PromptActionView {
        PromptActionView::Perform(Box::new(ScreenActionView::Terminate))
    }

    /// The answer that does nothing.
    pub open spec fn stay() -> PromptActionView {
        PromptActionView::Perform(Box::new(ScreenActionView::Stay))
    }

    /// The answer that opens `screen`.
    pub open spec fn switch_to(screen: ScreenView) -> PromptActionView {
        PromptActionView::Perform(Box::new(ScreenActionView::SwitchTo(screen)))
    }

    /// What confirming this answer does: the host's resources afterwards,
    /// and the action that the prompt returns. Deleting from a chooser
    /// with an empty list deletes nothing.
    pub open spec fn performed(self, host: HostView) -> (HostView, ScreenActionView) {
        match self {
            PromptActionView::Perform(action) => (host, *action),
            PromptActionView::DeleteAccount(chooser) => if chooser.accounts.len() == 0 {
                (
                    host,
                    ScreenActionView::SwitchTo(
                        ScreenView::AccountSelector(
                            AccountSelectorView::opening(chooser.accounts),
                        ),
                    ),
                )
            } else {
                (
                    host.deleting(chooser.accounts[chooser.selected_account_idx].email),
                    ScreenActionView::SwitchTo(
                        ScreenView::AccountSelector(
                            AccountSelectorView::opening(
                                chooser.accounts.remove(chooser.selected_account_idx),
                            ),
                        ),
                    ),
                )
            },
        }
    }

    /// Whether confirming this answer can lead to a screen that reads the
    /// host's user profile.
    pub open spec fn needs_profile(self) -> bool
        decreases self,
    {
        match self {
            PromptActionView::Perform(a) => a.needs_profile(),
            PromptActionView::DeleteAccount(_) => false,
        }
    }
}

impl PromptAction {
    pub open spec fn view(&self) -> PromptActionView
        decreases self,
    {
        match self {
            PromptAction::Perform(a) => PromptActionView::Perform(Box::new(a.view())),
            PromptAction::DeleteAccount(s) => PromptActionView::DeleteAccount(s@),
        }
    }

    /// The answer that does `action`.
    pub fn perform(action: ScreenAction) -> (r: PromptAction)
        ensures
            r@ == PromptActionView::Perform(Box::new(action@)),
    {
        PromptAction::Perform(Box::new(action))
    }

    /// The answer that leaves the application.
    pub fn terminate() -> (r: PromptAction)
        ensures
            r@ == PromptActionView::terminate(),
    {
        PromptAction::Perform(Box::new(ScreenAction::Terminate))
    }

    /// The answer that does nothing.
    pub fn stay() -> (r: PromptAction)
        ensures
            r@ == PromptActionView::stay(),
    {
        PromptAction::Perform(Box::new(ScreenAction::Stay))
    }

    /// The answer that opens `screen`.
    pub fn switch_to(screen: Screen) -> (r: PromptAction)
        ensures
            r@ == PromptActionView::switch_to(screen@),
    {
        PromptAction::Perform(Box::new(ScreenAction::SwitchTo(screen)))
    }

    /// Does what this answer stands for, and returns the action for the
    /// host. The answer can be confirmed again: what it holds is copied.
    pub fn run(&self, app: &mut App) -> (action: ScreenAction)
        ensures
            final(app)@ == (crate::app::AppView {
                host: self@.performed(old(app)@.host).0,
                ..old(app)@
            }),
            action@ == self@.performed(old(app)@.host).1,
    {
        match self {
            PromptAction::Perform(action) => (**action).clone(),
            PromptAction::DeleteAccount(chooser) => {
                let (email, rest) = chooser.without_selected();
                match email {
                    Some(email) => {
                        app.delete_account(&email);
                    },
                    None => {},
                }
                ScreenAction::SwitchTo(Screen::AccountSelector(rest))
            },
        }
    }
}

impl PromptView {
    /// A question with the answers "Evet" and "Hayır".
    pub open spec fn confirm(
        header: Seq<char>,
        title: Seq<char>,
        prompt: Seq<char>,
        selection: Selection,
        yes_action: PromptActionView,
        no_action: PromptActionView,
    ) -> PromptView {
        PromptView {
            selection,
            header,
            title,
            prompt,
            yes_label: "Evet"@,
            no_label: "Hayır"@,
            yes_action,
            no_action,
        }
    }

    /// The question that every field of is a placeholder, and both answers
    /// of which do nothing.
    pub open spec fn placeholder() -> PromptView {
        PromptView {
            selection: Selection::Yes,
            header: "Dummy"@,
            title: "Dummy"@,
            prompt: "Dummy"@,
            yes_label: "Yes"@,
            no_label: "No"@,
            yes_action: PromptActionView::stay(),
            no_action: PromptActionView::stay(),
        }
    }

    /// The answer that is selected.
    pub open spec fn selected_action(self) -> PromptActionView {
        match self.selection {
            Selection::Yes => self.yes_action,
            Selection::No => self.no_action,
        }
    }
}

/// How the prompt handles one event: `q`, Esc and Backspace leave the
/// application, Enter confirms the selected answer, Left and Right select
/// the other answer, and everything else is ignored.
pub open spec fn prompt_step(p: PromptView, host: HostView, event: Option<Event>) -> Handled<
    PromptView,
> {
    match key_of(event) {
        Some(KeyCode::Esc) | Some(KeyCode::Backspace) => Handled {
            state: p,
            host,
            action: ScreenActionView::Terminate,
        },
        Some(KeyCode::Char(c)) => Handled {
            state: p,
            host,
            action: if c == 'q' {
                ScreenActionView::Terminate
            } else {
                ScreenActionView::Stay
            },
        },
        Some(KeyCode::Enter) => Handled {
            state: p,
            host: p.selected_action().performed(host).0,
            action: p.selected_action().performed(host).1,
        },
        Some(KeyCode::Left) | Some(KeyCode::Right) => Handled {
            state: PromptView { selection: p.selection.toggled(), ..p },
            host,
            action: ScreenActionView::Stay,
        },
        _ => Handled { state: p, host, action: ScreenActionView::Stay },
    }
}

impl PromptScreen {
    pub open spec fn view(&self) -> PromptView
        decreases self,
    {
        PromptView {
            selection: self.selection,
            header: self.header@,
            title: self.title@,
            prompt: self.prompt@,
            yes_label: self.yes_label@,
            no_label: self.no_label@,
            yes_action: self.yes_action.view(),
            no_action: self.no_action.view(),
        }
    }

    /// A question with the answers "Evet" and "Hayır".
    pub fn confirm(
        header: &str,
        title: &str,
        prompt: String,
        selection: Selection,
        yes_action: PromptAction,
        no_action: PromptAction,
    ) -> (r: PromptScreen)
        ensures
            r@ == PromptView::confirm(
                header@,
                title@,
                prompt@,
                selection,
                yes_action@,
                no_action@,
            ),
    {
        PromptScreen {
            selection,
            header: header.to_owned(),
            title: title.to_owned(),
            prompt,
            yes_label: "Evet".to_owned(),
            no_label: "Hayır".to_owned(),
            yes_action,
            no_action,
        }
    }

    /// Handles one event, as `prompt_step` says.
    pub fn handle_event(&mut self, app: &mut App, event: Option<Event>) -> (action: ScreenAction)
        ensures
            handled_by(
                prompt_step(old(self)@, old(app)@.host, event),
                final(self)@,
                old(app)@,
                final(app)@,
                action@,
            ),
    {
        match event_key(event) {
            Some(KeyCode::Esc) | Some(KeyCode::Backspace) => ScreenAction::Terminate,
            Some(KeyCode::Char(c)) => {
                if c == 'q' {
                    ScreenAction::Terminate
                } else {
                    ScreenAction::Stay
                }
            },
            Some(KeyCode::Enter) => {
                match self.selection {
                    Selection::Yes => self.yes_action.run(app),
                    Selection::No => self.no_action.run(app),
                }
            },
            Some(KeyCode::Left) | Some(KeyCode::Right) => {
                self.selection = self.selection.toggle();
                ScreenAction::Stay
            },
            _ => ScreenAction::Stay,
        }
    }
}

/// The header in its frame: three lines, the frame as wide as the header
/// has bytes, and three more on either side.
pub open spec fn logo_of(header: Seq<char>) -> Seq<char> {
    "╔═══"@ + repeated('═', byte_len(header) as nat) + "═══╗\n║   "@ + header + "   ║\n╚═══"@
        + repeated('═', byte_len(header) as nat) + "═══╝"@
}

/// The text of the button for "yes".
pub open spec fn yes_text_of(label: Seq<char>) -> Seq<char> {
    " ✔ "@ + label
}

/// The text of the button for "no".
pub open spec fn no_text_of(label: Seq<char>) -> Seq<char> {
    " ✘ "@ + label
}

impl PromptScreen {
    /// The header in its frame.
    pub fn logo(&self) -> (r: String)
        ensures
            r@ == logo_of(self@.header),
    {
        let bar = repeat_char('═', text_len(&self.header));
        let mut out = "╔═══".to_owned();
        out.append(bar.as_str());
        out.append("═══╗\n║   ");
        out.append(self.header.as_str());
        out.append("   ║\n╚═══");
        out.append(bar.as_str());
        out.append("═══╝");
        out
    }

    /// The text of the button for "yes".
    pub fn yes_text(&self) -> (r: String)
        ensures
            r@ == yes_text_of(self@.yes_label),
    {
        join2(" ✔ ", self.yes_label.as_str())
    }

    /// The text of the button for "no".
    pub fn no_text(&self) -> (r: String)
        ensures
            r@ == no_text_of(self@.no_label),
    {
        join2(" ✘ ", self.no_label.as_str())
    }
}

impl Default for PromptScreen {
    fn default() -> (r: Self)
        ensures
            r@ == PromptView::placeholder(),
    {
        PromptScreen {
            selection: Selection::Yes,
            header: "Dummy".to_owned(),
            title: "Dummy".to_owned(),
            prompt: "Dummy".to_owned(),
            yes_label: "Yes".to_owned(),
            no_label: "No".to_owned(),
            yes_action: PromptAction::stay(),
            no_action: PromptAction::stay(),
        }
    }
}

impl Clone for PromptAction {
    fn clone(&self) -> (r: Self)
        ensures
            r@ == self@,
        decreases self,
    {
        match self {
            PromptAction::Perform(a) => PromptAction::Perform(Box::new((**a).clone())),
            PromptAction::DeleteAccount(s) => PromptAction::DeleteAccount(s.clone()),
        }
    }
}

impl Clone for PromptScreen {
    fn clone(&self) -> (r: Self)
        ensures
            r@ == self@,
        decreases self,
    {
        PromptScreen {
            selection: self.selection,
            header: self.header.clone(),
            title: self.title.clone(),
            prompt: self.prompt.clone(),
            yes_label: self.yes_label.clone(),
            no_label: self.no_label.clone(),
            yes_action: self.yes_action.clone(),
            no_action: self.no_action.clone(),
        }
    }
}

} // verus!
