//! The menu of the signed-in user.

pub mod enter_code;

use crate::app::{App, HostView};
use crate::event::{event_key, key_of, Event, KeyCode};
use crate::screens::account_selector::{AccountSelectorScreen, AccountSelectorView};
use crate::screens::home::enter_code::{EnterCodeScreen, EnterCodeView};
use crate::screens::{handled_by, Handled, Screen, ScreenAction, ScreenActionView, ScreenView};
use crate::text::{join2, text_is};
use crate::user::{UserDetails, UserDetailsView};
use vstd::prelude::*;
use vstd::string::*;

verus! {

/// The entry of the menu that is selected.
#[derive(Clone, Copy, Debug, PartialEq, Eq, Structural)]
pub enum HomeScreenSelection {
    EnterCode,
    AccountSelector,
}

/// The menu: the selected entry, and the profile of the user whose menu it is.
#[derive(Debug, PartialEq, Eq)]
pub struct HomeScreen {
    pub selection: HomeScreenSelection,
    pub user_details: UserDetails,
}

/// The view of a `HomeScreen`.
pub struct HomeView {
    pub selection: HomeScreenSelection,
    pub user_details: UserDetailsView,
}

impl HomeView {
    /// The menu as it opens for `user_details`.
    pub open spec fn opening(user_details: UserDetailsView) -> HomeView {
        HomeView { selection: HomeScreenSelection::EnterCode, user_details }
    }
}

impl HomeScreenSelection {
    /// The other entry of the menu.
    pub open spec fn toggled(self) -> HomeScreenSelection {
        match self {
            HomeScreenSelection::EnterCode => HomeScreenSelection::AccountSelector,
            HomeScreenSelection::AccountSelector => HomeScreenSelection::EnterCode,
        }
    }

    /// The other entry of the menu.
    pub fn toggle(self) -> (r: HomeScreenSelection)
        ensures
            r == self.toggled(),
    {
        match self {
            HomeScreenSelection::EnterCode => HomeScreenSelection::AccountSelector,
            HomeScreenSelection::AccountSelector => HomeScreenSelection::EnterCode,
        }
    }
}

/// How the menu handles one event. Whatever the event, the menu's profile
/// becomes the host's if the host has none. Then: Enter opens the selected
/// entry, which is an empty code entry or the chooser on the host's saved
/// accounts; `q` and Esc leave the application; Up and Down select the other
/// entry; everything else is ignored.
pub open spec fn home_step(v: HomeView, host: HostView, event: Option<Event>) -> Handled<HomeView> {
    let host = host.remembering(v.user_details);
    match key_of(event) {
        Some(KeyCode::Enter) => Handled {
            state: v,
            host,
            action: match v.selection {
                HomeScreenSelection::EnterCode => ScreenActionView::SwitchTo(
                    ScreenView::EnterCode(EnterCodeView::empty()),
                ),
                HomeScreenSelection::AccountSelector => ScreenActionView::SwitchTo(
                    ScreenView::AccountSelector(AccountSelectorView::opening(host.accounts)),
                ),
            },
        },
        Some(KeyCode::Esc) => Handled { state: v, host, action: ScreenActionView::Terminate },
        Some(KeyCode::Char(c)) => Handled {
            state: v,
            host,
            action: if c == 'q' {
                ScreenActionView::Terminate
            } else {
                ScreenActionView::Stay
            },
        },
        Some(KeyCode::Up) | Some(KeyCode::Down) => Handled {
            state: HomeView { selection: v.selection.toggled(), ..v },
            host,
            action: ScreenActionView::Stay,
        },
        _ => Handled { state: v, host, action: ScreenActionView::Stay },
    }
}

impl HomeScreen {
    /// Handles one event, as `home_step` says.
    pub fn handle_event(&mut self, app: &mut App, event: Option<Event>) -> (action: ScreenAction)
        ensures
            handled_by(
                home_step(old(self)@, old(app)@.host, event),
                final(self)@,
                old(app)@,
                final(app)@,
                action@,
            ),
            final(app)@.host.user_details is Some,
    {
        app.remember_profile(&self.user_details);
        match event_key(event) {
            Some(KeyCode::Enter) => match self.selection {
                HomeScreenSelection::EnterCode => ScreenAction::SwitchTo(
                    Screen::EnterCode(EnterCodeScreen::new()),
                ),
                HomeScreenSelection::AccountSelector => ScreenAction::SwitchTo(
                    Screen::AccountSelector(AccountSelectorScreen::new(app.accounts())),
                ),
            },
            Some(KeyCode::Esc) => ScreenAction::Terminate,
            Some(KeyCode::Char(c)) => {
                if c == 'q' {
                    ScreenAction::Terminate
                } else {
                    ScreenAction::Stay
                }
            },
            Some(KeyCode::Up) | Some(KeyCode::Down) => {
                self.selection = self.selection.toggle();
                ScreenAction::Stay
            },
            _ => ScreenAction::Stay,
        }
    }

    pub open spec fn view(&self) -> HomeView {
        HomeView { selection: self.selection, user_details: self.user_details@ }
    }

    /// The menu for `user_details`, its first entry selected.
    pub fn new(user_details: UserDetails) -> (r: HomeScreen)
        ensures
            r@ == HomeView::opening(user_details@),
    {
        HomeScreen { selection: HomeScreenSelection::EnterCode, user_details }
    }
}

/// How the role `rol` is shown in the header.
pub open spec fn role_label(rol: Seq<char>) -> Seq<char> {
    if rol == "OGRENCI"@ {
        "🎓 Öğrenci"@
    } else if rol == "OGRETMEN"@ {
        "👨‍🏫 Öğretmen"@
    } else {
        "👤 Kullanıcı"@
    }
}

/// The header line: role, full name and user name.
pub open spec fn user_header_of(d: UserDetailsView) -> Seq<char> {
    " "@ + role_label(d.rol) + "  │  "@ + d.ad + " "@ + d.soyad + "  │  "@ + d.kullanici_adi
}

/// What the panel beside the menu tells a user of the role `rol`.
pub open spec fn info_text_of(rol: Seq<char>) -> Seq<char> {
    if rol == "OGRENCI"@ {
        "📚 Öğrenci Paneli\n\nYoklama kodunu girmek için\nsol menüden \"Kod Gir\"\nseçeneğini seçin.\n\nÖğretmeninizin size\nverdiği kodu girin."@
    } else if rol == "teacher"@ {
        "👨‍🏫 Öğretmen Paneli\n\nÖğrencilerinizin yoklama\nkodlarını girebilecekleri\nbir sistem.\n\nKod oluşturmak için\nweb panelini kullanın."@
    } else {
        "Hoş geldiniz!"@
    }
}

/// The label of a menu entry.
pub open spec fn menu_label(entry: HomeScreenSelection) -> Seq<char> {
    match entry {
        HomeScreenSelection::EnterCode => "📝 Kod Gir"@,
        HomeScreenSelection::AccountSelector => "👤 Hesap Seç"@,
    }
}

/// The line of a menu entry: marked where it is the selected one.
pub open spec fn menu_line_of(selection: HomeScreenSelection, entry: HomeScreenSelection) -> Seq<
    char,
> {
    if selection == entry {
        " ▶ "@ + menu_label(entry)
    } else {
        "   "@ + menu_label(entry)
    }
}

impl HomeScreen {
    /// The header line.
    pub fn user_header(&self) -> (r: String)
        ensures
            r@ == user_header_of(self@.user_details),
    {
        let role = if text_is(&self.user_details.rol, "OGRENCI") {
            "🎓 Öğrenci"
        } else if text_is(&self.user_details.rol, "OGRETMEN") {
            "👨‍🏫 Öğretmen"
        } else {
            "👤 Kullanıcı"
        };
        let mut out = join2(" ", role);
        out.append("  │  ");
        out.append(self.user_details.ad.as_str());
        out.append(" ");
        out.append(self.user_details.soyad.as_str());
        out.append("  │  ");
        out.append(self.user_details.kullanici_adi.as_str());
        out
    }

    /// The text of the panel beside the menu.
    pub fn info_text(&self) -> (r: &'static str)
        ensures
            r@ == info_text_of(self@.user_details.rol),
    {
        if text_is(&self.user_details.rol, "OGRENCI") {
            "📚 Öğrenci Paneli\n\nYoklama kodunu girmek için\nsol menüden \"Kod Gir\"\nseçeneğini seçin.\n\nÖğretmeninizin size\nverdiği kodu girin."
        } else if text_is(&self.user_details.rol, "teacher") {
            "👨‍🏫 Öğretmen Paneli\n\nÖğrencilerinizin yoklama\nkodlarını girebilecekleri\nbir sistem.\n\nKod oluşturmak için\nweb panelini kullanın."
        } else {
            "Hoş geldiniz!"
        }
    }

    /// Whether `entry` is the selected entry of the menu.
    pub fn is_selected(&self, entry: HomeScreenSelection) -> (r: bool)
        ensures
            r == (self@.selection == entry),
    {
        self.selection == entry
    }

    /// The line of the menu for `entry`.
    pub fn menu_line(&self, entry: HomeScreenSelection) -> (r: String)
        ensures
            r@ == menu_line_of(self@.selection, entry),
    {
        let label = match entry {
            HomeScreenSelection::EnterCode => "📝 Kod Gir",
            HomeScreenSelection::AccountSelector => "👤 Hesap Seç",
        };
        if self.is_selected(entry) {
            join2(" ▶ ", label)
        } else {
            join2("   ", label)
        }
    }
}

impl Default for HomeScreen {
    fn default() -> (r: Self)
        ensures
            r@ == HomeView::opening(UserDetailsView::empty()),
    {
        HomeScreen { selection: HomeScreenSelection::EnterCode, user_details: UserDetails::default() }
    }
}

impl Clone for HomeScreen {
    fn clone(&self) -> (r: Self)
        ensures
            r@ == self@,
    {
        HomeScreen { selection: self.selection, user_details: self.user_details.clone() }
    }
}

} // verus!
