use freebox_exporter::auth::{
    authorization_status_result, authorization_status_url, authorize_url, challenge_result, challenge_url,
    compute_password, prompt_result, registration_outcome, registration_payload, session_needs_login,
    session_payload, session_result, session_token_of, session_url, stored_token, to_hex,
    AuthenticationError, Authenticator, AuthorizationError, AuthorizationResult, ChallengeResult,
    FileSystemProvider, FreeboxClient, LoginError, MonitorDecision, PromptPayload, PromptResult,
    RegistrationMonitor, SessionResult, SessionTokenProvider, TokenStep, NEVER_ISSUED_NANOS, SESSION_TOKEN_LIFETIME_NANOS,
};
use freebox_exporter::transport::FreeboxResponse;

fn answer<T>(success: Option<bool>, result: Option<T>) -> FreeboxResponse<T> {
    FreeboxResponse { msg: None, success, uid: None, error_code: None, result }
}

#[test]
fn password_is_the_hex_hmac_sha1_of_the_challenge() {
    let p = compute_password(
        "key".to_string(),
        ChallengeResult { challenge: "The quick brown fox jumps over the lazy dog".to_string() },
    )
    .unwrap();
    assert_eq!(p, "de7c9b85b8b78aa6bc8a7a36f70a90701c9db4d9");
    let a = Authenticator::new("http://x/api/".to_string(), ());
    let q = a.compute_password("foo.bar".to_string(), ChallengeResult { challenge: "1234".to_string() }).unwrap();
    assert_eq!(q.len(), 40);
    assert!(q.chars().all(|c| c.is_ascii_hexdigit() && !c.is_ascii_uppercase()));
}

#[test]
fn hex_writes_two_lowercase_digits_per_byte() {
    assert_eq!(to_hex(&vec![0, 9, 10, 255, 16]), "00090aff10");
    assert_eq!(to_hex(&vec![]), "");
}

#[test]
fn registration_payload_and_urls() {
    let p = registration_payload("myhost".to_string());
    assert_eq!(p.app_id, "fr.freebox.prometheus.exporter");
    assert_eq!(p.app_name, "Prometheus Exporter");
    assert_eq!(p.app_version, "1.0.0.0");
    assert_eq!(p.device_name, "myhost");
    let q = PromptPayload::new("a".to_string(), "b".to_string(), "c".to_string(), "d".to_string());
    assert_eq!((q.app_id.as_str(), q.device_name.as_str()), ("a", "d"));
    assert_eq!(session_payload("pw".to_string()).app_id, "fr.freebox.prometheus.exporter");
    assert_eq!(authorize_url("http://h/api/"), "http://h/api/v4/login/authorize");
    assert_eq!(authorization_status_url("http://h/api/", 1), "http://h/api/v4/login/authorize/1");
    assert_eq!(authorization_status_url("http://h/api/", -3), "http://h/api/v4/login/authorize/-3");
    assert_eq!(challenge_url("http://h/api/"), "http://h/api/v4/login/");
    assert_eq!(session_url("http://h/api/"), "http://h/api/v4/login/session");
}

#[test]
fn login_answers_are_checked() {
    let ok = prompt_result(answer(Some(true), Some(PromptResult { app_token: "foo.bar".to_string(), track_id: 1 }))).unwrap();
    assert_eq!((ok.app_token.as_str(), ok.track_id), ("foo.bar", 1));
    assert_eq!(prompt_result(answer(Some(false), None)).err().unwrap().reason, "response was not success");
    assert_eq!(prompt_result(answer(Some(true), None)).err().unwrap().reason, "v4/login/authorize response was empty");
    assert_eq!(
        authorization_status_result(answer::<AuthorizationResult>(Some(true), None), 7).err().unwrap().reason,
        "v4/login/authorize/7 response was empty"
    );
    assert_eq!(challenge_result(answer::<ChallengeResult>(None, None)).err().unwrap().reason, "response was not success");
    assert_eq!(challenge_result(answer::<ChallengeResult>(Some(true), None)).err().unwrap().reason, "v4/login response was empty");
    match session_result(answer::<SessionResult>(Some(false), None)) {
        Err(LoginError::Authentication(e)) => assert_eq!(e.reason, "Failed to get session token"),
        _ => panic!("a refused session is an authentication error"),
    }
    match session_result(answer::<SessionResult>(Some(true), None)) {
        Err(LoginError::Response(e)) => assert_eq!(e.reason, "v4/login/session response was empty"),
        _ => panic!("an empty answer is a response error"),
    }
    assert_eq!(session_token_of(SessionResult { session_token: Some("4321".to_string()) }).unwrap(), "4321");
    assert_eq!(session_token_of(SessionResult { session_token: None }).err().unwrap().reason, "cannot get session token");
}

#[test]
fn monitor_follows_the_registration() {
    let mut m = RegistrationMonitor::new();
    assert!(matches!(m.observe("pending"), MonitorDecision::PollAgain));
    assert!(matches!(m.observe("granted"), MonitorDecision::Granted));
    let mut m = RegistrationMonitor::new();
    match m.observe("denied") {
        MonitorDecision::Failed(e) => assert_eq!(e.reason, "Authorization has failed, reason: denied"),
        _ => panic!("denied ends the registration"),
    }
    match RegistrationMonitor::new().observe("weird") {
        MonitorDecision::Failed(e) => assert_eq!(e.reason, "Incorrect response from server, escaping"),
        _ => panic!("an unknown status ends the registration"),
    }
}

#[test]
fn monitor_gives_up_after_one_hundred_polls() {
    let mut m = RegistrationMonitor::new();
    let mut polls = 0;
    loop {
        polls += 1;
        match m.observe("pending") {
            MonitorDecision::PollAgain => continue,
            MonitorDecision::Failed(e) => {
                assert_eq!(e.reason, "Authorization aborted, reason: too much attempts");
                break;
            }
            MonitorDecision::Granted => panic!("pending never grants"),
        }
    }
    assert_eq!(polls, 100);
}

#[test]
fn registration_outcome_reports_failures() {
    assert!(registration_outcome::<()>(Ok(())).is_ok());
    assert_eq!(registration_outcome(Err(3)).err().unwrap().reason, "Failed to register application");
}

#[test]
fn sessions_are_renewed_after_thirty_minutes() {
    assert!(!session_needs_login(0, SESSION_TOKEN_LIFETIME_NANOS));
    assert!(session_needs_login(0, SESSION_TOKEN_LIFETIME_NANOS + 1));
    assert!(session_needs_login(NEVER_ISSUED_NANOS, 0));
}

#[test]
fn token_file_and_contents() {
    let p = FileSystemProvider::get_token_file_path("/data".to_string());
    assert!(p == "/data/token.dat" || p == "/data\\token.dat");
    assert_eq!(FileSystemProvider::new("/data".to_string()).path, p);
    assert_eq!(stored_token("  abc.def\n"), "abc.def");
    let c = FreeboxClient::new("u".to_string(), "t".to_string());
    assert_eq!((c.api_url.as_str(), c.session_token.as_str()), ("u", "t"));
    assert_eq!(AuthenticationError::new("x".to_string()).describe(), "x");
    assert_eq!(AuthorizationError::new("y".to_string()).describe(), "y");
}

#[test]
fn session_token_is_renewed_only_when_too_old() {
    let mut s = SessionTokenProvider::new();
    assert_eq!(s.issued_on, NEVER_ISSUED_NANOS);
    assert!(matches!(s.get(0), TokenStep::Login));
    let failed: Result<String, String> = Err("no answer".to_string());
    assert_eq!(s.logged_in(failed, 10), Err("no answer".to_string()));
    assert_eq!(s.issued_on, NEVER_ISSUED_NANOS);
    assert_eq!(s.value, "");
    let ok: Result<String, String> = Ok("tok".to_string());
    assert_eq!(s.logged_in(ok, 100), Ok("tok".to_string()));
    assert_eq!(s.issued_on, 100);
    match s.get(100 + SESSION_TOKEN_LIFETIME_NANOS) {
        TokenStep::Use(t) => assert_eq!(t, "tok"),
        TokenStep::Login => panic!("token still fresh"),
    }
    assert!(matches!(s.get(101 + SESSION_TOKEN_LIFETIME_NANOS), TokenStep::Login));
}

#[test]
fn session_password_has_forty_hex_digits() {
    let p = compute_password("token".to_string(), ChallengeResult { challenge: "challenge".to_string() }).unwrap();
    assert_eq!(p.len(), 40);
    assert!(p.chars().all(|c| c.is_ascii_hexdigit() && !c.is_ascii_uppercase()));
}
