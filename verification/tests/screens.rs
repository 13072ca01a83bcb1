use deysis_tui::app::App;
use deysis_tui::config::{Config, UserCredentials};
use deysis_tui::event::{
    event_key, forward_event, Event, KeyCode, KeyEvent, KeyEventKind,
};
use deysis_tui::screens::account_selector::AccountSelectorScreen;
use deysis_tui::screens::blank::BlankScreen;
use deysis_tui::screens::home::enter_code::{get_large_digit, DigitBox, EnterCodeScreen, CODE_LEN};
use deysis_tui::screens::home::{HomeScreen, HomeScreenSelection};
use deysis_tui::screens::loading::modern::{render_modern, spinner, SPINNER_FRAMES};
use deysis_tui::requests::exchange::{Reply, Request};
use deysis_tui::requests::login::LoginReply;
use deysis_tui::screens::loading::{
    GenericLoadingScreen, LoginOutcome, OperationOutcome, PendingOperation, SessionOutcome,
};
use deysis_tui::screens::login::{ActiveField, LoginScreen, UserCreds};
use deysis_tui::screens::prompt::{PromptAction, PromptScreen, Selection};
use deysis_tui::screens::{Screen, ScreenAction, ScreenKind};
use deysis_tui::text::{decimal, is_ascii_digit, join2, join3, repeat_char, text_is, text_len};
use deysis_tui::user::UserDetails;

fn press(code: KeyCode) -> Option<Event> {
    Some(Event::press(code))
}

fn details(rol: &str) -> UserDetails {
    UserDetails {
        kullanici_adi: "ada".to_string(),
        kullanici_kodu: "1".to_string(),
        ad: "Ada".to_string(),
        soyad: "Lovelace".to_string(),
        rol: rol.to_string(),
    }
}

fn saved(email: &str) -> UserCredentials {
    UserCredentials { email: email.to_string(), password: "pw".to_string(), cookies: String::new() }
}

/// An application whose host holds a profile, as after the menu's first
/// tick.
fn host_with_profile() -> App {
    let mut app = App::init(Config::new());
    app.remember_profile(&details("OGRENCI"));
    app
}

#[test]
fn forward_event_passes_presses_only() {
    let pressed = Event::Key(KeyEvent { code: KeyCode::Enter, kind: KeyEventKind::Press });
    let repeated = Event::Key(KeyEvent { code: KeyCode::Enter, kind: KeyEventKind::Repeat });
    let released = Event::Key(KeyEvent { code: KeyCode::Enter, kind: KeyEventKind::Release });
    assert_eq!(forward_event(Some(pressed)), Some(pressed));
    assert_eq!(forward_event(Some(repeated)), None);
    assert_eq!(forward_event(Some(released)), None);
    assert_eq!(forward_event(Some(Event::Other)), Some(Event::Other));
    assert_eq!(forward_event(None), None);
    assert_eq!(Event::press(KeyCode::Char('x')), Event::Key(KeyEvent::press(KeyCode::Char('x'))));
}

#[test]
fn event_key_reads_the_key() {
    assert_eq!(event_key(press(KeyCode::Tab)), Some(KeyCode::Tab));
    let released = Event::Key(KeyEvent { code: KeyCode::Up, kind: KeyEventKind::Release });
    assert_eq!(event_key(Some(released)), Some(KeyCode::Up));
    assert_eq!(event_key(Some(Event::Other)), None);
    assert_eq!(event_key(None), None);
}

#[test]
fn blank_screen_ignores_everything() {
    let mut blank = BlankScreen;
    assert_eq!(blank.handle_event(press(KeyCode::Esc)), ScreenAction::Stay);
    assert_eq!(blank.handle_event(None), ScreenAction::Stay);
    assert_eq!(blank.title(), "Blank Screen");
    let mut app = App::init(Config::new());
    let mut screen = Screen::Blank(BlankScreen);
    assert_eq!(
        screen.handle_event(&mut app, press(KeyCode::Char('q')), || None),
        ScreenAction::Stay
    );
    assert_eq!(screen.kind(), ScreenKind::Blank);
}

#[test]
fn text_helpers_build_what_they_say() {
    assert_eq!(repeat_char('●', 0), "");
    assert_eq!(repeat_char('●', 3), "●●●");
    assert_eq!(join2("ab", "çd"), "abçd");
    assert_eq!(join3("a", "", "c"), "ac");
    assert!(text_is(&"OGRENCI".to_string(), "OGRENCI"));
    assert!(!text_is(&"ogrenci".to_string(), "OGRENCI"));
    assert_eq!(text_len(&"şifre".to_string()), 6);
    assert_eq!(text_len(&String::new()), 0);
    assert!(is_ascii_digit('0') && is_ascii_digit('9') && is_ascii_digit('5'));
    assert!(!is_ascii_digit('/') && !is_ascii_digit(':') && !is_ascii_digit('٣'));
}

#[test]
fn decimal_writes_numbers() {
    assert_eq!(decimal(0), "0");
    assert_eq!(decimal(7), "7");
    assert_eq!(decimal(10), "10");
    assert_eq!(decimal(409), "409");
    assert_eq!(decimal(1234567890), "1234567890");
    assert_eq!(decimal(usize::MAX), usize::MAX.to_string());
}

#[test]
fn large_digits_are_five_rows_of_five() {
    assert_eq!(get_large_digit('0'), " ▄▄▄ \n█   █\n█   █\n█   █\n ▀▀▀ ");
    assert_eq!(get_large_digit('1'), "  █  \n ██  \n  █  \n  █  \n ███ ");
    assert_eq!(get_large_digit('2'), " ▄▄▄ \n    █\n ▄▄▄ \n█    \n▀▀▀▀ ");
    assert_eq!(get_large_digit('3'), " ▄▄▄ \n    █\n ▄▄▄ \n    █\n ▀▀▀ ");
    assert_eq!(get_large_digit('4'), "█   █\n█   █\n▀▀▀▀█\n    █\n    █");
    assert_eq!(get_large_digit('5'), " ▄▄▄ \n█    \n▀▀▀▄ \n    █\n ▀▀▀ ");
    assert_eq!(get_large_digit('6'), " ▄▄▄ \n█    \n█▄▄▄ \n█   █\n ▀▀▀ ");
    assert_eq!(get_large_digit('7'), " ▄▄▄ \n    █\n   █ \n  █  \n  █  ");
    assert_eq!(get_large_digit('8'), " ▄▄▄ \n█   █\n ▄▄▄ \n█   █\n ▀▀▀ ");
    assert_eq!(get_large_digit('9'), " ▄▄▄ \n█   █\n ▀▀▀█\n    █\n ▀▀▀ ");
    for d in "0123456789".chars() {
        let glyph = get_large_digit(d);
        let rows: Vec<&str> = glyph.split('\n').collect();
        assert_eq!(rows.len(), 5);
        for row in rows {
            assert_eq!(row.chars().count(), 5);
        }
    }
}

#[test]
fn large_digit_of_anything_else_is_a_question_mark() {
    assert_eq!(get_large_digit('x'), "\n  ?\n\n\n     ");
    assert_eq!(get_large_digit(' '), "\n  ?\n\n\n     ");
    assert_eq!(get_large_digit('٣'), "\n  ?\n\n\n     ");
}

#[test]
fn code_entry_starts_empty() {
    let screen = EnterCodeScreen::new();
    assert_eq!(screen.code(), "");
    assert_eq!(screen.len(), 0);
    assert!(!screen.is_complete());
    assert_eq!(screen.progress(), "0/6");
    assert_eq!(CODE_LEN, 6);
}

#[test]
fn code_entry_handles_keys_on_its_own() {
    let mut app = host_with_profile();
    let mut screen = EnterCodeScreen::new();
    for c in "12ab34".chars() {
        assert_eq!(screen.handle_event(&mut app, press(KeyCode::Char(c))), ScreenAction::Stay);
    }
    assert_eq!(screen.code(), "1234");
    assert_eq!(screen.handle_event(&mut app, press(KeyCode::Enter)), ScreenAction::Stay);
    assert_eq!(screen.handle_event(&mut app, None), ScreenAction::Stay);
    assert_eq!(screen.handle_event(&mut app, Some(Event::Other)), ScreenAction::Stay);
    assert_eq!(screen.handle_event(&mut app, press(KeyCode::Left)), ScreenAction::Stay);
    assert_eq!(screen.code(), "1234");
    for c in "5678".chars() {
        screen.handle_event(&mut app, press(KeyCode::Char(c)));
    }
    assert_eq!(screen.code(), "123456");
    assert!(screen.is_complete());
    assert_eq!(screen.progress(), "6/6");
    assert_eq!(
        screen.handle_event(&mut app, press(KeyCode::Enter)),
        ScreenAction::SwitchAsync {
            operation: PendingOperation::SubmitCode {
                code: "123456".to_string(),
                user_details: details("OGRENCI"),
            },
            message: "Submitting code...".to_string(),
        }
    );
    assert_eq!(screen.code(), "123456");
    assert_eq!(
        screen.handle_event(&mut app, press(KeyCode::Esc)),
        ScreenAction::SwitchTo(Screen::Home(HomeScreen::new(details("OGRENCI"))))
    );
}

#[test]
fn code_entry_takes_digits_from_a_host_without_profile() {
    let mut app = App::init(Config::new());
    assert_eq!(app.user_details(), None);
    let mut screen = EnterCodeScreen::new();
    for c in ['1', 'a', '2', '3', '4', '5', '6', '7'] {
        assert_eq!(screen.handle_event(&mut app, press(KeyCode::Char(c))), ScreenAction::Stay);
    }
    assert_eq!(screen.code(), "123456");
    assert_eq!(screen.handle_event(&mut app, press(KeyCode::Backspace)), ScreenAction::Stay);
    assert_eq!(screen.code(), "12345");
    assert_eq!(screen.handle_event(&mut app, press(KeyCode::Char('9'))), ScreenAction::Stay);
    assert_eq!(screen.code(), "123459");
    assert_eq!(app.user_details(), None);
}

#[test]
fn enter_on_an_incomplete_code_needs_no_profile() {
    let mut app = App::init(Config::new());
    let mut screen = EnterCodeScreen::new();
    for n in 0..6 {
        assert_eq!(screen.len(), n);
        assert_eq!(screen.handle_event(&mut app, press(KeyCode::Enter)), ScreenAction::Stay);
        assert_eq!(screen.len(), n);
        screen.handle_event(&mut app, press(KeyCode::Char('0')));
    }
    assert_eq!(screen.handle_event(&mut app, press(KeyCode::Backspace)), ScreenAction::Stay);
    assert_eq!(screen.handle_event(&mut app, press(KeyCode::Enter)), ScreenAction::Stay);
    assert_eq!(screen.handle_event(&mut app, None), ScreenAction::Stay);
    assert_eq!(screen.handle_event(&mut app, press(KeyCode::Tab)), ScreenAction::Stay);
    assert_eq!(screen.code(), "00000");
    assert_eq!(app.user_details(), None);
    assert!(!app.unsaved());
}

#[test]
fn backspace_on_an_empty_code_changes_nothing() {
    let mut app = App::init(Config::new());
    let mut screen = EnterCodeScreen::new();
    assert_eq!(screen.handle_event(&mut app, press(KeyCode::Backspace)), ScreenAction::Stay);
    assert_eq!(screen.code(), "");
    screen.handle_event(&mut app, press(KeyCode::Char('4')));
    screen.handle_event(&mut app, press(KeyCode::Char('2')));
    assert_eq!(screen.handle_event(&mut app, press(KeyCode::Backspace)), ScreenAction::Stay);
    assert_eq!(screen.code(), "4");
}

#[test]
fn code_entry_shows_its_boxes() {
    let mut app = host_with_profile();
    let mut screen = EnterCodeScreen::new();
    for c in "40".chars() {
        screen.handle_event(&mut app, press(KeyCode::Char(c)));
    }
    assert_eq!(screen.progress(), "2/6");
    let boxes = screen.digit_boxes();
    assert_eq!(boxes.len(), 6);
    assert_eq!(boxes[0], DigitBox { art: get_large_digit('4'), filled: true, active: false });
    assert_eq!(boxes[1], DigitBox { art: get_large_digit('0'), filled: true, active: false });
    let blank = "     \n     \n     \n     \n     ".to_string();
    assert_eq!(boxes[2], DigitBox { art: blank.clone(), filled: false, active: true });
    for i in 3..6 {
        assert_eq!(boxes[i], DigitBox { art: blank.clone(), filled: false, active: false });
        assert_eq!(screen.digit_box(i), boxes[i]);
    }
    assert_eq!(screen.digit_box(6), DigitBox { art: blank, filled: false, active: false });
}

#[test]
fn login_form_types_into_the_active_field() {
    let mut app = App::init(Config::new());
    let mut form = LoginScreen::default();
    assert_eq!(form.active_field, ActiveField::Email);
    for c in "aü".chars() {
        assert_eq!(form.handle_event(&mut app, press(KeyCode::Char(c))), ScreenAction::Stay);
    }
    assert_eq!(form.handle_event(&mut app, press(KeyCode::Tab)), ScreenAction::Stay);
    assert_eq!(form.active_field, ActiveField::Password);
    for c in "şx1".chars() {
        form.handle_event(&mut app, press(KeyCode::Char(c)));
    }
    assert_eq!(form.handle_event(&mut app, press(KeyCode::Backspace)), ScreenAction::Stay);
    assert_eq!(form.user_creds, UserCreds { email: "aü".to_string(), password: "şx".to_string() });
    assert_eq!(form.handle_event(&mut app, press(KeyCode::BackTab)), ScreenAction::Stay);
    assert_eq!(form.active_field, ActiveField::Email);
    form.handle_event(&mut app, press(KeyCode::Backspace));
    form.handle_event(&mut app, press(KeyCode::Backspace));
    form.handle_event(&mut app, press(KeyCode::Backspace));
    assert_eq!(form.user_creds.email, "");
    assert_eq!(form.user_creds.password, "şx");
    assert_eq!(form.handle_event(&mut app, press(KeyCode::Up)), ScreenAction::Stay);
    assert_eq!(form.handle_event(&mut app, None), ScreenAction::Stay);
    assert_eq!(
        form.handle_event(&mut app, press(KeyCode::Enter)),
        ScreenAction::SwitchAsync {
            operation: PendingOperation::Login {
                creds: UserCreds { email: String::new(), password: "şx".to_string() },
            },
            message: "Giriş yapılıyor...".to_string(),
        }
    );
    assert_eq!(form.handle_event(&mut app, press(KeyCode::Char('q'))), ScreenAction::Terminate);
    assert_eq!(form.user_creds.email, "");
}

#[test]
fn login_form_shows_one_dot_per_byte() {
    let mut form = LoginScreen::with_creds(UserCreds {
        email: "a@x".to_string(),
        password: "abc".to_string(),
    });
    assert_eq!(form.masked_password(), "●●●");
    form.user_creds.password = "şx".to_string();
    assert_eq!(form.masked_password(), "●●●");
    form.user_creds.password = String::new();
    assert_eq!(form.masked_password(), "");
}

#[test]
fn login_form_marks_the_active_field() {
    let mut form = LoginScreen::default();
    assert_eq!(form.email_title(), " 👤 Email ▸ ");
    assert_eq!(form.password_title(), " 🔒 Şifre ");
    assert_eq!(form.instructions(), "Tab: Şifreye geç | Enter: Giriş yap | Esc: İptal");
    form.active_field = ActiveField::Password;
    assert_eq!(form.email_title(), " 👤 Email ");
    assert_eq!(form.password_title(), " 🔒 Şifre ▸ ");
    assert_eq!(form.instructions(), "Tab: Kullanıcı adına dön | Enter: Giriş yap | Esc: İptal");
}

#[test]
fn login_form_after_an_error() {
    let form = LoginScreen::with_error("a@x".to_string(), "no".to_string());
    assert_eq!(form.user_creds, UserCreds { email: "a@x".to_string(), password: String::new() });
    assert_eq!(form.error_message, Some("no".to_string()));
    assert_eq!(form.active_field, ActiveField::Email);
    assert_eq!(form.clone(), form);
}

#[test]
fn home_menu_toggles_between_its_two_entries() {
    let mut app = App::init(Config::new());
    let mut home = HomeScreen::new(details("OGRENCI"));
    assert_eq!(home.selection, HomeScreenSelection::EnterCode);
    assert_eq!(home.handle_event(&mut app, press(KeyCode::Down)), ScreenAction::Stay);
    assert_eq!(home.selection, HomeScreenSelection::AccountSelector);
    assert_eq!(home.handle_event(&mut app, press(KeyCode::Down)), ScreenAction::Stay);
    assert_eq!(home.selection, HomeScreenSelection::EnterCode);
    assert_eq!(home.handle_event(&mut app, press(KeyCode::Up)), ScreenAction::Stay);
    assert_eq!(home.selection, HomeScreenSelection::AccountSelector);
    assert_eq!(app.user_details(), Some(details("OGRENCI")));
}

#[test]
fn home_menu_opens_the_selected_entry() {
    let mut config = Config::new();
    config.insert(saved("a@x"));
    let mut app = App::init(config);
    let mut home = HomeScreen::new(details("OGRENCI"));
    assert_eq!(
        home.handle_event(&mut app, press(KeyCode::Enter)),
        ScreenAction::SwitchTo(Screen::EnterCode(EnterCodeScreen::new()))
    );
    home.handle_event(&mut app, press(KeyCode::Up));
    assert_eq!(
        home.handle_event(&mut app, press(KeyCode::Enter)),
        ScreenAction::SwitchTo(Screen::AccountSelector(AccountSelectorScreen::new(vec![saved(
            "a@x"
        )])))
    );
    assert_eq!(home.handle_event(&mut app, press(KeyCode::Esc)), ScreenAction::Terminate);
    assert_eq!(home.handle_event(&mut app, press(KeyCode::Char('q'))), ScreenAction::Terminate);
    assert_eq!(home.handle_event(&mut app, press(KeyCode::Char('x'))), ScreenAction::Stay);
}

#[test]
fn home_keeps_the_profile_that_the_host_has() {
    let mut app = host_with_profile();
    let mut home = HomeScreen::new(details("OGRETMEN"));
    home.handle_event(&mut app, None);
    assert_eq!(app.user_details(), Some(details("OGRENCI")));
}

#[test]
fn home_shows_role_name_and_menu() {
    let mut home = HomeScreen::new(details("OGRENCI"));
    assert_eq!(home.user_header(), " 🎓 Öğrenci  │  Ada Lovelace  │  ada");
    assert!(home.info_text().starts_with("📚 Öğrenci Paneli\n\nYoklama kodunu girmek için\n"));
    assert!(home.info_text().ends_with("verdiği kodu girin."));
    assert_eq!(home.menu_line(HomeScreenSelection::EnterCode), " ▶ 📝 Kod Gir");
    assert_eq!(home.menu_line(HomeScreenSelection::AccountSelector), "   👤 Hesap Seç");
    assert!(home.is_selected(HomeScreenSelection::EnterCode));
    home.selection = HomeScreenSelection::AccountSelector;
    assert_eq!(home.menu_line(HomeScreenSelection::EnterCode), "   📝 Kod Gir");
    assert_eq!(home.menu_line(HomeScreenSelection::AccountSelector), " ▶ 👤 Hesap Seç");
    let teacher = HomeScreen::new(details("OGRETMEN"));
    assert_eq!(teacher.user_header(), " 👨‍🏫 Öğretmen  │  Ada Lovelace  │  ada");
    assert_eq!(teacher.info_text(), "Hoş geldiniz!");
    let other = HomeScreen::new(details("teacher"));
    assert_eq!(other.user_header(), " 👤 Kullanıcı  │  Ada Lovelace  │  ada");
    assert!(other.info_text().starts_with("👨‍🏫 Öğretmen Paneli\n\n"));
    assert_eq!(HomeScreen::default().user_header(), " 👤 Kullanıcı  │     │  ");
    assert_eq!(HomeScreen::default().user_details, UserDetails::default());
}

#[test]
fn prompt_toggles_and_confirms() {
    let mut app = App::init(Config::new());
    let mut prompt = PromptScreen::confirm(
        "H",
        "T",
        "P?".to_string(),
        Selection::Yes,
        PromptAction::switch_to(Screen::Login(LoginScreen::default())),
        PromptAction::terminate(),
    );
    assert_eq!(prompt.yes_label, "Evet");
    assert_eq!(prompt.no_label, "Hayır");
    assert_eq!(
        prompt.handle_event(&mut app, press(KeyCode::Enter)),
        ScreenAction::SwitchTo(Screen::Login(LoginScreen::default()))
    );
    // The answer can be confirmed again.
    assert_eq!(
        prompt.handle_event(&mut app, press(KeyCode::Enter)),
        ScreenAction::SwitchTo(Screen::Login(LoginScreen::default()))
    );
    assert_eq!(prompt.handle_event(&mut app, press(KeyCode::Left)), ScreenAction::Stay);
    assert_eq!(prompt.selection, Selection::No);
    assert_eq!(prompt.handle_event(&mut app, press(KeyCode::Enter)), ScreenAction::Terminate);
    assert_eq!(prompt.handle_event(&mut app, press(KeyCode::Right)), ScreenAction::Stay);
    assert_eq!(prompt.selection, Selection::Yes);
    assert_eq!(prompt.handle_event(&mut app, press(KeyCode::Up)), ScreenAction::Stay);
    assert_eq!(prompt.handle_event(&mut app, press(KeyCode::Char('x'))), ScreenAction::Stay);
    assert_eq!(prompt.handle_event(&mut app, None), ScreenAction::Stay);
    assert_eq!(prompt.selection, Selection::Yes);
    for code in [KeyCode::Char('q'), KeyCode::Esc, KeyCode::Backspace] {
        assert_eq!(prompt.handle_event(&mut app, press(code)), ScreenAction::Terminate);
    }
}

#[test]
fn default_prompt_does_nothing() {
    let mut app = App::init(Config::new());
    let mut prompt = PromptScreen::default();
    assert_eq!(prompt.header, "Dummy");
    assert_eq!(prompt.title, "Dummy");
    assert_eq!(prompt.prompt, "Dummy");
    assert_eq!(prompt.yes_label, "Yes");
    assert_eq!(prompt.no_label, "No");
    assert_eq!(prompt.selection, Selection::Yes);
    assert_eq!(prompt.handle_event(&mut app, press(KeyCode::Enter)), ScreenAction::Stay);
    prompt.handle_event(&mut app, press(KeyCode::Right));
    assert_eq!(prompt.handle_event(&mut app, press(KeyCode::Enter)), ScreenAction::Stay);
    assert_eq!(PromptAction::stay(), PromptAction::perform(ScreenAction::Stay));
}

#[test]
fn prompt_frames_its_header() {
    let mut prompt = PromptScreen::default();
    prompt.header = "Deysis TUI".to_string();
    assert_eq!(
        prompt.logo(),
        "╔════════════════╗\n║   Deysis TUI   ║\n╚════════════════╝"
    );
    prompt.header = "Başarılı!".to_string();
    // Twelve bytes, nine characters.
    assert_eq!(
        prompt.logo(),
        "╔══════════════════╗\n║   Başarılı!   ║\n╚══════════════════╝"
    );
    prompt.header = String::new();
    assert_eq!(prompt.logo(), "╔══════╗\n║      ║\n╚══════╝");
    assert_eq!(prompt.yes_text(), " ✔ Yes");
    assert_eq!(prompt.no_text(), " ✘ No");
}

#[test]
fn deleting_from_an_empty_chooser_deletes_nothing() {
    let mut config = Config::new();
    config.insert(saved("a@x"));
    let mut app = App::init(config);
    let action = PromptAction::DeleteAccount(AccountSelectorScreen::new(vec![]));
    assert_eq!(
        action.run(&mut app),
        ScreenAction::SwitchTo(Screen::AccountSelector(AccountSelectorScreen::new(vec![])))
    );
    assert_eq!(app.accounts(), vec![saved("a@x")]);
    assert!(!app.unsaved());
}

#[test]
fn delete_action_removes_the_selected_account() {
    let mut config = Config::new();
    config.insert(saved("a@x"));
    config.insert(saved("b@x"));
    let mut app = App::init(config);
    let chooser = AccountSelectorScreen::new(vec![saved("a@x"), saved("b@x")]);
    assert_eq!(
        chooser.without_selected(),
        (Some("a@x".to_string()), AccountSelectorScreen::new(vec![saved("b@x")]))
    );
    let action = PromptAction::DeleteAccount(chooser);
    assert_eq!(
        action.run(&mut app),
        ScreenAction::SwitchTo(Screen::AccountSelector(AccountSelectorScreen::new(vec![saved(
            "b@x"
        )])))
    );
    assert_eq!(app.accounts(), vec![saved("b@x")]);
    assert!(app.unsaved());
}

#[test]
fn chooser_fills_an_empty_list_from_the_store() {
    let mut config = Config::new();
    config.insert(saved("a@x"));
    config.insert(saved("b@x"));
    let mut app = App::init(config);
    let mut chooser = AccountSelectorScreen::new(vec![]);
    assert_eq!(chooser.handle_event(&mut app, None), ScreenAction::Stay);
    assert_eq!(chooser.accounts(), &vec![saved("a@x"), saved("b@x")]);
    assert_eq!(chooser.selected_account_idx(), 0);
    assert_eq!(chooser.handle_event(&mut app, press(KeyCode::Esc)), ScreenAction::Terminate);
    assert_eq!(chooser.handle_event(&mut app, press(KeyCode::Char('q'))), ScreenAction::Terminate);
    assert_eq!(chooser.handle_event(&mut app, press(KeyCode::Char('x'))), ScreenAction::Stay);
}

#[test]
fn chooser_keeps_its_own_list() {
    let mut app = App::init(Config::new());
    let mut chooser = AccountSelectorScreen::new(vec![saved("z@x")]);
    assert_eq!(chooser.handle_event(&mut app, press(KeyCode::Down)), ScreenAction::Stay);
    assert_eq!(chooser.accounts(), &vec![saved("z@x")]);
}

#[test]
fn chooser_shows_its_lines() {
    let mut app = App::init(Config::new());
    let mut chooser = AccountSelectorScreen::new(vec![saved("a@x"), saved("b@x")]);
    assert_eq!(chooser.len(), 2);
    assert_eq!(chooser.list_title(), " Kayıtlı Hesaplar (2) ");
    assert_eq!(chooser.account_line(0), " ▶  📧 a@x");
    assert_eq!(chooser.account_line(1), "    📧 b@x");
    chooser.handle_event(&mut app, press(KeyCode::Down));
    assert_eq!(chooser.account_line(0), "    📧 a@x");
    assert_eq!(chooser.account_line(1), " ▶  📧 b@x");
    assert_eq!(AccountSelectorScreen::new(vec![]).list_title(), " Kayıtlı Hesaplar (0) ");
}

#[test]
fn spinner_comes_round_every_eight_ticks() {
    let frames = ["⠁", "⠂", "⠄", "⡀", "⢀", "⠠", "⠐", "⠈"];
    assert_eq!(SPINNER_FRAMES, 8);
    for n in 0..40usize {
        assert_eq!(spinner(n), frames[n % 8]);
    }
    assert_eq!(spinner(usize::MAX), "⠈");
}

#[test]
fn loading_text_is_frame_and_message() {
    assert_eq!(render_modern("Giriş yapılıyor...", 0), "\n⠁  Giriş yapılıyor...");
    assert_eq!(render_modern("Giriş yapılıyor...", 3), "\n⡀  Giriş yapılıyor...");
    assert_eq!(render_modern("", 15), "\n⠈  ");
}

#[test]
fn loading_screen_handles_ticks_on_its_own() {
    let mut app = App::init(Config::new());
    let operation = PendingOperation::Login {
        creds: UserCreds { email: "a@x".to_string(), password: "pw".to_string() },
    };
    let mut loading = GenericLoadingScreen::new("wait".to_string(), operation.clone());
    assert_eq!(loading.spinner_state(), 0);
    assert!(!loading.awaits_reply());
    assert_eq!(loading.handle_event(&mut app, press(KeyCode::Esc), || None), ScreenAction::Stay);
    assert!(loading.awaits_reply());
    assert_eq!(loading.handle_event(&mut app, None, || None), ScreenAction::Stay);
    assert_eq!(loading.spinner_state(), 2);
    assert_eq!(loading.message(), "wait");
    assert_eq!(loading.operation(), Some(&operation));
    let refused = Reply::Login(LoginReply::Answered { status: 403, cookies: String::new() });
    assert_eq!(
        loading.handle_event(&mut app, None, move || Some(refused)),
        ScreenAction::SwitchTo(Screen::Login(LoginScreen::with_error(
            "a@x".to_string(),
            "Giriş başarısız: Login failed".to_string()
        )))
    );
    assert_eq!(loading.spinner_state(), 3);
    // The operation is complete: the screen holds it no more, and rests.
    assert_eq!(loading.operation(), None);
    assert!(!loading.awaits_reply());
    let mut probes = 0;
    let rest = loading.handle_event(&mut app, None, || {
        probes += 1;
        Some(Reply::Refreshed)
    });
    assert_eq!(rest, ScreenAction::Stay);
    assert_eq!(probes, 0);
    assert_eq!(loading.handle_event(&mut app, None, || None), ScreenAction::Stay);
    assert_eq!(loading.spinner_state(), 5);
    // The request that the first tick put down is handed on by the host's tick.
    let d = app.tick(None, || None);
    assert_eq!(d.request, Some(Request::CheckAuth));
}

#[test]
fn operations_accept_results_of_their_kind() {
    let login = PendingOperation::Login {
        creds: UserCreds { email: "a@x".to_string(), password: "pw".to_string() },
    };
    assert!(login.accepts(&OperationOutcome::Login(LoginOutcome::Rejected("no".to_string()))));
    assert!(!login.accepts(&OperationOutcome::Session(SessionOutcome::Unauthenticated)));
    assert!(!login.accepts(&OperationOutcome::Submit(Ok(true))));
    let check = PendingOperation::CheckSession;
    assert!(check.accepts(&OperationOutcome::Session(SessionOutcome::ProfileUnavailable)));
    assert!(!check.accepts(&OperationOutcome::Submit(Err("x".to_string()))));
    let submit = PendingOperation::SubmitCode { code: "1".to_string(), user_details: details("x") };
    assert!(submit.accepts(&OperationOutcome::Submit(Ok(false))));
    assert!(!submit.accepts(&OperationOutcome::Login(LoginOutcome::Rejected("no".to_string()))));
}

#[test]
fn resolving_a_refused_code() {
    let mut app = App::init(Config::new());
    let submit = PendingOperation::SubmitCode { code: "1".to_string(), user_details: details("x") };
    let screen = submit.resolve(OperationOutcome::Submit(Ok(false)), &mut app);
    assert_eq!(
        screen,
        Screen::Prompt(PromptScreen::confirm(
            "Hata!",
            "Yoklamaya katılamadınız.",
            "Geçersiz kod girdiniz, tekrar denemek ister misiniz?".to_string(),
            Selection::Yes,
            PromptAction::switch_to(Screen::EnterCode(EnterCodeScreen::new())),
            PromptAction::terminate(),
        ))
    );
}

#[test]
fn resolving_a_session_check_of_a_saved_account() {
    let mut app = App::init(Config::new());
    let operation = PendingOperation::ValidateAccount { account: saved("a@x") };
    let screen = operation.resolve(
        OperationOutcome::Session(SessionOutcome::Authenticated(details("OGRENCI"))),
        &mut app,
    );
    assert_eq!(screen, Screen::Home(HomeScreen::new(details("OGRENCI"))));
    for outcome in [SessionOutcome::Unauthenticated, SessionOutcome::ProfileUnavailable] {
        let screen = operation.resolve(OperationOutcome::Session(outcome), &mut app);
        assert_eq!(
            screen,
            Screen::Prompt(PromptScreen::confirm(
                "Deysis TUI",
                "Giriş Yap",
                "Giriş bilginiz geçersiz, giriş yapmak ister misiniz?".to_string(),
                Selection::Yes,
                PromptAction::switch_to(Screen::Login(LoginScreen::with_creds(UserCreds {
                    email: "a@x".to_string(),
                    password: "pw".to_string(),
                }))),
                PromptAction::terminate(),
            ))
        );
    }
    assert!(!app.unsaved());
}

#[test]
fn clones_are_equal() {
    let screen = Screen::Prompt(PromptScreen::confirm(
        "H",
        "T",
        "P".to_string(),
        Selection::No,
        PromptAction::DeleteAccount(AccountSelectorScreen::new(vec![saved("a@x")])),
        PromptAction::switch_to(Screen::Loading(GenericLoadingScreen::new(
            "m".to_string(),
            PendingOperation::CheckSession,
        ))),
    ));
    assert_eq!(screen.clone(), screen);
    let action = ScreenAction::SwitchAsync {
        operation: PendingOperation::SubmitCode {
            code: "1".to_string(),
            user_details: details("x"),
        },
        message: "m".to_string(),
    };
    assert_eq!(action.clone(), action);
    assert_eq!(Screen::EnterCode(EnterCodeScreen::new()).clone().kind(), ScreenKind::EnterCode);
    assert_eq!(Screen::Home(HomeScreen::default()).clone(), Screen::Home(HomeScreen::default()));
}
