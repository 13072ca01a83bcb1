//! The chooser among the saved accounts.

use crate::app::{App, HostView};
use crate::config::{accounts_view, UserCredentials, UserCredentialsView};
use crate::event::{event_key, key_of, Event, KeyCode};
use crate::screens::loading::{PendingOperation, PendingOperationView};
use crate::screens::login::{LoginScreen, LoginView};
use crate::screens::prompt::{PromptAction, PromptActionView, PromptScreen, PromptView, Selection};
use crate::screens::{handled_by, Handled, Screen, ScreenAction, ScreenActionView, ScreenView};
use crate::text::{decimal, decimal_digits, join2, join3};
use vstd::prelude::*;

verus! {

/// The list of saved accounts with one of them selected. A chooser with an
/// empty list fills it from the host's store when it next handles an
/// event.
#[derive(Debug, PartialEq, Eq)]
pub struct AccountSelectorScreen {
    selected_account_idx: usize,
    accounts: Vec<UserCredentials>,
}

/// The view of an `AccountSelectorScreen`.
pub struct AccountSelectorView {
    pub selected_account_idx: int,
    pub accounts: Seq<UserCredentialsView>,
}

impl AccountSelectorView {
    /// The selection points into the list, or at 0 while the list is empty.
    pub open spec fn wf(self) -> bool {
        if self.accounts.len() == 0 {
            self.selected_account_idx == 0
        } else {
            0 <= self.selected_account_idx < self.accounts.len()
        }
    }

    /// The chooser as it opens on `accounts`.
    pub open spec fn opening(accounts: Seq<UserCredentialsView>) -> AccountSelectorView {
        AccountSelectorView { selected_account_idx: 0, accounts }
    }

    /// The chooser once it has looked at the host's store: an empty list
    /// is filled from there.
    pub open spec fn loaded(self, saved: Seq<UserCredentialsView>) -> AccountSelectorView {
        if self.accounts.len() == 0 {
            AccountSelectorView { accounts: saved, ..self }
        } else {
            self
        }
    }

    /// The selection moved up by one, from the first entry to the last.
    pub open spec fn moved_up(self) -> AccountSelectorView {
        AccountSelectorView {
            selected_account_idx: if self.selected_account_idx == 0 {
                self.accounts.len() - 1
            } else {
                self.selected_account_idx - 1
            },
            ..self
        }
    }

    /// The selection moved down by one, from the last entry to the first.
    pub open spec fn moved_down(self) -> AccountSelectorView {
        AccountSelectorView {
            selected_account_idx: if self.selected_account_idx == self.accounts.len() - 1 {
                0
            } else {
                self.selected_account_idx + 1
            },
            ..self
        }
    }
}

/// The question asked when there is no saved account: sign in, or leave.
pub open spec fn sign_in_prompt() -> PromptView {
    PromptView::confirm(
        "Deysis TUI"@,
        "Giriş Yap"@,
        "Giriş bilginiz bulunamadı, giriş yapmak ister misiniz?"@,
        Selection::Yes,
        PromptActionView::switch_to(ScreenView::Login(LoginView::empty())),
        PromptActionView::terminate(),
    )
}

/// The question asked before the selected account of `chooser` is deleted.
/// "No" is selected; it leads back to the chooser as it was.
pub open spec fn delete_prompt(chooser: AccountSelectorView) -> PromptView {
    PromptView::confirm(
        "Deysis TUI"@,
        "Hesabı Sil"@,
        "Bu hesabı silmek istediğinize emin misiniz?"@,
        Selection::No,
        PromptActionView::DeleteAccount(chooser),
        PromptActionView::switch_to(ScreenView::AccountSelector(chooser)),
    )
}

/// The message shown while the selected account's session is checked.
pub open spec fn validating_message() -> Seq<char> {
    "Giriş bilgileri doğrulanıyor..."@
}

/// How the chooser handles one event. With no account in its list and none
/// in the host's store it asks whether to sign in, whatever the event.
/// Otherwise: `q` and Esc leave the application, `n` opens an empty sign-in
/// form, `d` asks whether to delete the selected account, Up and Down move
/// the selection and wrap around, Enter checks the selected account's
/// session, and everything else is ignored.
pub open spec fn account_selector_step(
    v: AccountSelectorView,
    host: HostView,
    event: Option<Event>,
) -> Handled<AccountSelectorView> {
    let loaded = v.loaded(host.accounts);
    if loaded.accounts.len() == 0 {
        Handled {
            state: v,
            host,
            action: ScreenActionView::SwitchTo(ScreenView::Prompt(sign_in_prompt())),
        }
    } else {
        match key_of(event) {
            Some(KeyCode::Esc) => Handled { state: loaded, host, action: ScreenActionView::Terminate },
            Some(KeyCode::Char(c)) => Handled {
                state: loaded,
                host,
                action: if c == 'q' {
                    ScreenActionView::Terminate
                } else if c == 'n' {
                    ScreenActionView::SwitchTo(ScreenView::Login(LoginView::empty()))
                } else if c == 'd' {
                    ScreenActionView::SwitchTo(ScreenView::Prompt(delete_prompt(loaded)))
                } else {
                    ScreenActionView::Stay
                },
            },
            Some(KeyCode::Up) => Handled {
                state: loaded.moved_up(),
                host,
                action: ScreenActionView::Stay,
            },
            Some(KeyCode::Down) => Handled {
                state: loaded.moved_down(),
                host,
                action: ScreenActionView::Stay,
            },
            Some(KeyCode::Enter) => Handled {
                state: loaded,
                host,
                action: ScreenActionView::SwitchAsync {
                    operation: PendingOperationView::ValidateAccount {
                        account: loaded.accounts[loaded.selected_account_idx],
                    },
                    message: validating_message(),
                },
            },
            _ => Handled { state: loaded, host, action: ScreenActionView::Stay },
        }
    }
}

impl AccountSelectorScreen {
    #[verifier::type_invariant]
    spec fn selection_in_range(&self) -> bool {
        if self.accounts@.len() == 0 {
            self.selected_account_idx == 0
        } else {
            self.selected_account_idx < self.accounts@.len()
        }
    }

    pub closed spec fn view(&self) -> AccountSelectorView {
        AccountSelectorView {
            selected_account_idx: self.selected_account_idx as int,
            accounts: accounts_view(self.accounts@),
        }
    }

    /// The chooser on `accounts`, the first of them selected.
    pub fn new(accounts: Vec<UserCredentials>) -> (r: Self)
        ensures
            r@ == AccountSelectorView::opening(accounts_view(accounts@)),
    {
        AccountSelectorScreen { selected_account_idx: 0, accounts }
    }

    /// The index of the selected account.
    pub fn selected_account_idx(&self) -> (r: usize)
        ensures
            r == self@.selected_account_idx,
            self@.wf(),
    {
        proof {
            use_type_invariant(self);
        }
        self.selected_account_idx
    }

    /// The accounts on offer.
    pub fn accounts(&self) -> (r: &Vec<UserCredentials>)
        ensures
            accounts_view(r@) == self@.accounts,
            self@.wf(),
    {
        proof {
            use_type_invariant(self);
        }
        &self.accounts
    }

    /// The address of the selected account, and the chooser on the other
    /// accounts. An empty chooser has no selected account.
    pub fn without_selected(&self) -> (r: (Option<String>, AccountSelectorScreen))
        ensures
            self@.wf(),
            self@.accounts.len() == 0 ==> r.0 is None && r.1@ == AccountSelectorView::opening(
                self@.accounts,
            ),
            self@.accounts.len() > 0 ==> r.0 is Some && r.0.unwrap()@
                == self@.accounts[self@.selected_account_idx].email && r.1@
                == AccountSelectorView::opening(
                self@.accounts.remove(self@.selected_account_idx),
            ),
    {
        proof {
            use_type_invariant(self);
        }
        let mut accounts = self.accounts.clone();
        assert(accounts@ =~= self.accounts@);
        if accounts.len() == 0 {
            (None, AccountSelectorScreen::new(accounts))
        } else {
            let removed = accounts.remove(self.selected_account_idx);
            assert(accounts_view(accounts@) =~= accounts_view(self.accounts@).remove(
                self.selected_account_idx as int,
            ));
            (Some(removed.email), AccountSelectorScreen::new(accounts))
        }
    }

    /// Handles one event, as `account_selector_step` says.
    pub fn handle_event(&mut self, app: &mut App, event: Option<Event>) -> (action: ScreenAction)
        ensures
            handled_by(
                account_selector_step(old(self)@, old(app)@.host, event),
                final(self)@,
                old(app)@,
                final(app)@,
                action@,
            ),
            final(self)@.wf(),
    {
        proof {
            use_type_invariant(&*self);
        }
        if self.accounts.len() == 0 {
            let accounts = app.accounts();
            if accounts.len() == 0 {
                return ScreenAction::SwitchTo(
                    Screen::Prompt(
                        PromptScreen::confirm(
                            "Deysis TUI",
                            "Giriş Yap",
                            "Giriş bilginiz bulunamadı, giriş yapmak ister misiniz?".to_owned(),
                            Selection::Yes,
                            PromptAction::switch_to(Screen::Login(LoginScreen::default())),
                            PromptAction::terminate(),
                        ),
                    ),
                );
            }
            self.accounts = accounts;
        }
        match event_key(event) {
            Some(KeyCode::Esc) => ScreenAction::Terminate,
            Some(KeyCode::Char(c)) => {
                if c == 'q' {
                    ScreenAction::Terminate
                } else if c == 'n' {
                    ScreenAction::SwitchTo(Screen::Login(LoginScreen::default()))
                } else if c == 'd' {
                    ScreenAction::SwitchTo(
                        Screen::Prompt(
                            PromptScreen::confirm(
                                "Deysis TUI",
                                "Hesabı Sil",
                                "Bu hesabı silmek istediğinize emin misiniz?".to_owned(),
                                Selection::No,
                                PromptAction::DeleteAccount(self.clone()),
                                PromptAction::switch_to(Screen::AccountSelector(self.clone())),
                            ),
                        ),
                    )
                } else {
                    ScreenAction::Stay
                }
            },
            Some(KeyCode::Up) => {
                if self.selected_account_idx == 0 {
                    self.selected_account_idx = self.accounts.len() - 1;
                } else {
                    self.selected_account_idx = self.selected_account_idx - 1;
                }
                ScreenAction::Stay
            },
            Some(KeyCode::Down) => {
                if self.selected_account_idx == self.accounts.len() - 1 {
                    self.selected_account_idx = 0;
                } else {
                    self.selected_account_idx = self.selected_account_idx + 1;
                }
                ScreenAction::Stay
            },
            Some(KeyCode::Enter) => {
                let account = self.accounts[self.selected_account_idx].clone();
                ScreenAction::SwitchAsync {
                    operation: PendingOperation::ValidateAccount { account },
                    message: "Giriş bilgileri doğrulanıyor...".to_owned(),
                }
            },
            _ => ScreenAction::Stay,
        }
    }
}

/// The line of the list for the account with the address `email`: marked
/// where the account is the selected one.
pub open spec fn account_line_of(email: Seq<char>, selected: bool) -> Seq<char> {
    if selected {
        " ▶  📧 "@ + email
    } else {
        "    📧 "@ + email
    }
}

/// The title of a list of `count` accounts.
pub open spec fn list_title_of(count: nat) -> Seq<char> {
    " Kayıtlı Hesaplar ("@ + decimal_digits(count) + ") "@
}

impl AccountSelectorScreen {
    /// The number of accounts on offer.
    pub fn len(&self) -> (r: usize)
        ensures
            r == self@.accounts.len(),
    {
        self.accounts.len()
    }

    /// The line of the list for the account at `index`.
    pub fn account_line(&self, index: usize) -> (r: String)
        requires
            index < self@.accounts.len(),
        ensures
            r@ == account_line_of(
                self@.accounts[index as int].email,
                index == self@.selected_account_idx,
            ),
    {
        if index == self.selected_account_idx {
            join2(" ▶  📧 ", self.accounts[index].email.as_str())
        } else {
            join2("    📧 ", self.accounts[index].email.as_str())
        }
    }

    /// The title of the list.
    pub fn list_title(&self) -> (r: String)
        ensures
            r@ == list_title_of(self@.accounts.len()),
    {
        let count = decimal(self.accounts.len());
        join3(" Kayıtlı Hesaplar (", count.as_str(), ") ")
    }
}

impl Clone for AccountSelectorScreen {
    fn clone(&self) -> (r: Self)
        ensures
            r@ == self@,
    {
        proof {
            use_type_invariant(self);
        }
        let accounts = self.accounts.clone();
        assert(accounts@ =~= self.accounts@);
        AccountSelectorScreen { selected_account_idx: self.selected_account_idx, accounts }
    }
}

} // verus!
