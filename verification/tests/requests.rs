use deysis_tui::config::UserCredentials;
use deysis_tui::requests::check_auth::{eval_auth, AuthResponse};
use deysis_tui::requests::exchange::{Exchange, Progress, Reply, Request};
use deysis_tui::requests::gen_coords::{
    coords_with_noise, gen_coords, Coords, BASE_LATITUDE, BASE_LONGITUDE,
};
use deysis_tui::requests::get_user_details::{
    get_user_details, read_user_body, UserBody, UserData, UserReply,
};
use deysis_tui::requests::join_class::{join_class, JoinReply};
use deysis_tui::requests::login::{login, LoginReply};
use deysis_tui::screens::loading::{
    LoginOutcome, OperationOutcome, PendingOperation, SessionOutcome,
};
use deysis_tui::screens::login::UserCreds;
use deysis_tui::user::UserDetails;

fn teacher() -> UserDetails {
    UserDetails {
        kullanici_adi: "grace".to_string(),
        kullanici_kodu: "7".to_string(),
        ad: "Grace".to_string(),
        soyad: "Hopper".to_string(),
        rol: "OGRETMEN".to_string(),
    }
}

fn signed_in() -> Option<AuthResponse> {
    Some(AuthResponse { status_success: true, is_auth: Some(true) })
}

fn signed_out() -> Option<AuthResponse> {
    Some(AuthResponse { status_success: true, is_auth: Some(false) })
}

fn profile_reply() -> Reply {
    Reply::UserDetails(UserReply::Body { sonuc: Some(true), data: UserData::Profile(teacher()) })
}

fn sent(progress: Progress) -> (Request, Exchange) {
    match progress {
        Progress::Send(request, exchange) => (request, exchange),
        Progress::Done(_, outcome) => panic!("complete too early: {:?}", outcome),
    }
}

fn done(progress: Progress) -> OperationOutcome {
    match progress {
        Progress::Done(_, outcome) => outcome,
        Progress::Send(request, _) => panic!("not complete, asks {:?}", request),
    }
}

#[test]
fn eval_auth_wants_status_and_flag() {
    assert!(eval_auth(signed_in()));
    assert!(!eval_auth(signed_out()));
    assert!(!eval_auth(Some(AuthResponse { status_success: true, is_auth: None })));
    assert!(!eval_auth(Some(AuthResponse { status_success: false, is_auth: Some(true) })));
    assert!(!eval_auth(None));
}

#[test]
fn coords_with_noise_adds_one_to_nine_millionths() {
    assert_eq!(coords_with_noise(0, 0), Coords { latitude: 38_366_967, longitude: 27_202_705 });
    assert_eq!(coords_with_noise(8, 4), Coords { latitude: 38_366_975, longitude: 27_202_709 });
    assert_eq!(coords_with_noise(9, 17), Coords { latitude: 38_366_967, longitude: 27_202_713 });
    assert_eq!(
        coords_with_noise(u32::MAX, u32::MAX - 1),
        Coords { latitude: 38_366_966 + 4, longitude: 27_202_704 + 3 }
    );
}

#[test]
fn gen_coords_stays_near_the_hall() {
    let mut seen_different = false;
    let first = gen_coords();
    for _ in 0..200 {
        let c = gen_coords();
        assert!(BASE_LATITUDE < c.latitude && c.latitude <= BASE_LATITUDE + 9);
        assert!(BASE_LONGITUDE < c.longitude && c.longitude <= BASE_LONGITUDE + 9);
        if c != first {
            seen_different = true;
        }
    }
    assert!(seen_different);
}

fn json(text: &str) -> serde_json::Value {
    serde_json::from_str(text).expect("the test's JSON is well formed")
}

#[test]
fn read_user_body_finds_flag_and_data() {
    let body = json(r#"{"sonuc": true, "data": "{\"ad\":\"Grace\"}", "mesaj": null}"#);
    assert_eq!(
        read_user_body(&body),
        UserBody { sonuc: Some(true), data: Some("{\"ad\":\"Grace\"}".to_string()) }
    );
    let body = json(r#"{"data": "", "sonuc": false}"#);
    assert_eq!(read_user_body(&body), UserBody { sonuc: Some(false), data: Some(String::new()) });
}

#[test]
fn read_user_body_takes_members_of_their_type_only() {
    let body = json(r#"{"sonuc": "true", "data": {"ad": "Grace"}}"#);
    assert_eq!(read_user_body(&body), UserBody { sonuc: None, data: None });
    let body = json(r#"{"sonuc": 1, "data": null}"#);
    assert_eq!(read_user_body(&body), UserBody { sonuc: None, data: None });
    let body = json(r#"{"Sonuc": true, "DATA": "x"}"#);
    assert_eq!(read_user_body(&body), UserBody { sonuc: None, data: None });
}

#[test]
fn read_user_body_of_what_is_no_object() {
    for text in ["null", "true", "\"data\"", "[true, \"x\"]", "17", "{}"] {
        assert_eq!(read_user_body(&json(text)), UserBody { sonuc: None, data: None });
    }
}

#[test]
fn get_user_details_reads_the_profile() {
    let reply = UserReply::Body { sonuc: Some(true), data: UserData::Profile(teacher()) };
    assert_eq!(get_user_details(reply), Ok(teacher()));
}

#[test]
fn get_user_details_reports_each_failure() {
    assert_eq!(
        get_user_details(UserReply::Failed("connection refused".to_string())),
        Err("connection refused".to_string())
    );
    assert_eq!(
        get_user_details(UserReply::Status("401 Unauthorized".to_string())),
        Err("Request failed with status: 401 Unauthorized".to_string())
    );
    assert_eq!(
        get_user_details(UserReply::Unreadable("expected value".to_string())),
        Err("expected value".to_string())
    );
    assert_eq!(
        get_user_details(UserReply::Body { sonuc: Some(true), data: UserData::Missing }),
        Err("Missing data field".to_string())
    );
    assert_eq!(
        get_user_details(UserReply::Body {
            sonuc: Some(true),
            data: UserData::Malformed("missing field `ad`".to_string()),
        }),
        Err("missing field `ad`".to_string())
    );
    assert_eq!(
        get_user_details(UserReply::Body {
            sonuc: Some(false),
            data: UserData::Profile(teacher()),
        }),
        Err("API returned unsuccessful result".to_string())
    );
    assert_eq!(
        get_user_details(UserReply::Body { sonuc: None, data: UserData::Profile(teacher()) }),
        Err("API returned unsuccessful result".to_string())
    );
}

#[test]
fn join_class_reads_the_reply() {
    assert_eq!(join_class(JoinReply::Joined), Ok(true));
    assert_eq!(join_class(JoinReply::Failed("timed out".to_string())), Err("timed out".to_string()));
    assert_eq!(
        join_class(JoinReply::Refused("Yoklama bulunamadı".to_string())),
        Err("Yoklama bulunamadı, kodu kontrol edin.".to_string())
    );
    assert_eq!(
        join_class(JoinReply::Refused("Süre doldu".to_string())),
        Err("Bir hata ile karşılaşıldı: Süre doldu".to_string())
    );
    assert_eq!(
        join_class(JoinReply::Refused("".to_string())),
        Err("Bir hata ile karşılaşıldı: ".to_string())
    );
    assert_eq!(
        join_class(JoinReply::Unreadable("EOF while parsing".to_string())),
        Err("EOF while parsing".to_string())
    );
}

#[test]
fn login_accepts_status_200_only() {
    assert_eq!(
        login(LoginReply::Answered { status: 200, cookies: "jar".to_string() }),
        Ok("jar".to_string())
    );
    for status in [201u16, 204, 302, 400, 401, 500] {
        assert_eq!(
            login(LoginReply::Answered { status, cookies: "jar".to_string() }),
            Err("Login failed".to_string())
        );
    }
    assert_eq!(login(LoginReply::Failed("dns error".to_string())), Err("dns error".to_string()));
}

#[test]
fn only_a_sign_in_answered_with_200_is_accepted() {
    assert!(LoginReply::Answered { status: 200, cookies: String::new() }.accepted());
    for status in [0u16, 199, 201, 204, 301, 401, 403, 500] {
        assert!(!LoginReply::Answered { status, cookies: "jar".to_string() }.accepted());
    }
    assert!(!LoginReply::Failed("timed out".to_string()).accepted());
}

#[test]
fn session_check_asks_once_when_signed_in() {
    let x = Exchange::start(PendingOperation::CheckSession);
    let (request, x) = sent(x.advance(None));
    assert_eq!(request, Request::CheckAuth);
    let (request, x) = sent(x.advance(Some(Reply::Auth(signed_in()))));
    assert_eq!(request, Request::UserDetails);
    let outcome = done(x.advance(Some(profile_reply())));
    assert_eq!(outcome, OperationOutcome::Session(SessionOutcome::Authenticated(teacher())));
}

#[test]
fn session_check_refreshes_the_token_and_asks_again() {
    let x = Exchange::start(PendingOperation::CheckSession);
    let (_, x) = sent(x.advance(None));
    let (request, x) = sent(x.advance(Some(Reply::Auth(signed_out()))));
    assert_eq!(request, Request::RefreshToken);
    let (request, x) = sent(x.advance(Some(Reply::Refreshed)));
    assert_eq!(request, Request::CheckAuth);
    let (request, x) = sent(x.advance(Some(Reply::Auth(signed_in()))));
    assert_eq!(request, Request::UserDetails);
    let outcome = done(x.advance(Some(Reply::UserDetails(UserReply::Failed("x".to_string())))));
    assert_eq!(outcome, OperationOutcome::Session(SessionOutcome::ProfileUnavailable));
}

#[test]
fn session_check_gives_up_after_the_second_refusal() {
    let x = Exchange::start(PendingOperation::CheckSession);
    let (_, x) = sent(x.advance(None));
    let (_, x) = sent(x.advance(Some(Reply::Auth(None))));
    let (_, x) = sent(x.advance(Some(Reply::Refreshed)));
    let outcome = done(x.advance(Some(Reply::Auth(signed_out()))));
    assert_eq!(outcome, OperationOutcome::Session(SessionOutcome::Unauthenticated));
}

#[test]
fn validating_an_account_first_takes_up_its_session() {
    let account = UserCredentials {
        email: "a@x".to_string(),
        password: "pw".to_string(),
        cookies: "saved jar".to_string(),
    };
    let x = Exchange::start(PendingOperation::ValidateAccount { account });
    let (request, x) = sent(x.advance(None));
    assert_eq!(request, Request::UseSession { cookies: "saved jar".to_string() });
    let (request, x) = sent(x.advance(Some(Reply::SessionInUse)));
    assert_eq!(request, Request::CheckAuth);
    let (request, x) = sent(x.advance(Some(Reply::Auth(signed_in()))));
    assert_eq!(request, Request::UserDetails);
    let outcome = done(x.advance(Some(profile_reply())));
    assert_eq!(outcome, OperationOutcome::Session(SessionOutcome::Authenticated(teacher())));
}

#[test]
fn sign_in_asks_for_the_profile_when_accepted() {
    let creds = UserCreds { email: "a@x".to_string(), password: "pw".to_string() };
    let x = Exchange::start(PendingOperation::Login { creds });
    let (request, x) = sent(x.advance(None));
    assert_eq!(request, Request::Login { email: "a@x".to_string(), password: "pw".to_string() });
    let reply = Reply::Login(LoginReply::Answered { status: 200, cookies: "jar".to_string() });
    let (request, x) = sent(x.advance(Some(reply)));
    assert_eq!(request, Request::UserDetails);
    let outcome = done(x.advance(Some(profile_reply())));
    assert_eq!(
        outcome,
        OperationOutcome::Login(LoginOutcome::Accepted {
            cookies: "jar".to_string(),
            details: Some(teacher()),
        })
    );
}

#[test]
fn sign_in_counts_as_accepted_without_a_profile() {
    let creds = UserCreds { email: "a@x".to_string(), password: "pw".to_string() };
    let x = Exchange::start(PendingOperation::Login { creds });
    let (_, x) = sent(x.advance(None));
    let reply = Reply::Login(LoginReply::Answered { status: 200, cookies: "jar".to_string() });
    let (_, x) = sent(x.advance(Some(reply)));
    let unreadable = Reply::UserDetails(UserReply::Unreadable("bad".to_string()));
    assert_eq!(
        done(x.advance(Some(unreadable))),
        OperationOutcome::Login(LoginOutcome::Accepted { cookies: "jar".to_string(), details: None })
    );
}

#[test]
fn sign_in_ends_when_refused() {
    let creds = UserCreds { email: "a@x".to_string(), password: "pw".to_string() };
    let x = Exchange::start(PendingOperation::Login { creds });
    let (_, x) = sent(x.advance(None));
    let reply = Reply::Login(LoginReply::Answered { status: 401, cookies: "jar".to_string() });
    assert_eq!(
        done(x.advance(Some(reply))),
        OperationOutcome::Login(LoginOutcome::Rejected("Login failed".to_string()))
    );
}

#[test]
fn code_is_handed_in_with_one_request() {
    let operation =
        PendingOperation::SubmitCode { code: "123456".to_string(), user_details: teacher() };
    let x = Exchange::start(operation.clone());
    assert!(!x.awaits_reply());
    assert_eq!(x.operation(), &operation);
    let (request, x) = sent(x.advance(None));
    assert_eq!(request, Request::JoinClass { code: "123456".to_string() });
    assert!(x.awaits_reply());
    assert_eq!(x.clone(), x);
    match x.advance(Some(Reply::Join(JoinReply::Joined))) {
        Progress::Done(finished, outcome) => {
            assert_eq!(finished, operation);
            assert_eq!(outcome, OperationOutcome::Submit(Ok(true)));
        }
        Progress::Send(request, _) => panic!("not complete, asks {:?}", request),
    }
}

#[test]
fn a_reply_to_another_request_counts_as_failure() {
    let operation =
        PendingOperation::SubmitCode { code: "123456".to_string(), user_details: teacher() };
    let (_, x) = sent(Exchange::start(operation).advance(None));
    assert_eq!(
        done(x.advance(Some(Reply::Refreshed))),
        OperationOutcome::Submit(Err("No reply".to_string()))
    );
    let creds = UserCreds { email: "a@x".to_string(), password: "pw".to_string() };
    let (_, x) = sent(Exchange::start(PendingOperation::Login { creds }).advance(None));
    assert_eq!(
        done(x.advance(None)),
        OperationOutcome::Login(LoginOutcome::Rejected("No reply".to_string()))
    );
    let (_, x) = sent(Exchange::start(PendingOperation::CheckSession).advance(None));
    let (request, _) = sent(x.advance(Some(Reply::Join(JoinReply::Joined))));
    assert_eq!(request, Request::RefreshToken);
}
