use unifi_port::client::{Outcome, PortChange, Step, UnifiApi};
use unifi_port::error::UnifiApiErrorCode;
use unifi_port::wire::{
    HttpMethod, Request, RequestBody, UnifiApiMetaResponse, UnifiApiResponse, UnifiApiReturnCode,
};

fn ok() -> UnifiApiResponse {
    UnifiApiResponse {
        meta: UnifiApiMetaResponse { rc: UnifiApiReturnCode::Success, msg: None },
    }
}

fn error(msg: &str) -> UnifiApiResponse {
    UnifiApiResponse {
        meta: UnifiApiMetaResponse {
            rc: UnifiApiReturnCode::Error,
            msg: Some(msg.to_string()),
        },
    }
}

fn error_without_message() -> UnifiApiResponse {
    UnifiApiResponse {
        meta: UnifiApiMetaResponse { rc: UnifiApiReturnCode::Error, msg: None },
    }
}

fn nameless_failure() -> Option<Outcome> {
    Some(Err(UnifiApiErrorCode::Unknown(String::new())))
}

fn login_required() -> UnifiApiResponse {
    error("api.err.LoginRequired")
}

fn client() -> UnifiApi {
    let mut api = UnifiApi::new("https://ctrl", "u", "p");
    api.set_port_enable_profile_id("PROF_UP".to_string());
    api.set_port_disable_profile_id("PROF_DOWN".to_string());
    api
}

fn client_with_session() -> UnifiApi {
    let mut api = client();
    assert_eq!(api.login_reply(ok()), Ok(()));
    assert!(api.has_session());
    api
}

/// Plays the part of the caller: sends what the client asks for, answers
/// from `replies`, and stops when told to or when the replies run out.
fn drive(
    api: &mut UnifiApi,
    mut change: PortChange,
    replies: Vec<UnifiApiResponse>,
) -> (Vec<Request>, Option<Outcome>) {
    let mut sent = Vec::new();
    let mut replies = replies.into_iter();
    loop {
        match api.step(&change) {
            Step::Done(outcome) => return (sent, Some(outcome)),
            Step::Send(request) => {
                sent.push(request);
                match replies.next() {
                    Some(reply) => change = api.on_reply(change, reply),
                    None => return (sent, None),
                }
            }
        }
    }
}

fn login_request() -> Request {
    Request {
        method: HttpMethod::Post,
        url: "https://ctrl/api/login".to_string(),
        body: RequestBody::Login { username: "u".to_string(), password: "p".to_string() },
    }
}

fn put_request(port: i32, profile: &str) -> Request {
    Request::port_overrides("https://ctrl", "dev1", port, profile)
}

#[test]
fn new_client_has_no_session_and_no_profiles() {
    let api = UnifiApi::new("https://ctrl", "u", "p");
    assert!(!api.has_session());
    let mut api = api;
    let up = api.enable_port("dev1", 4);
    let (sent, _) = drive(&mut api, up, vec![ok()]);
    assert_eq!(sent[1], put_request(4, ""));
    let down = api.disable_port("dev1", 4);
    let (sent, _) = drive(&mut api, down, vec![]);
    assert_eq!(sent[0], put_request(4, ""));
}

#[test]
fn setters_replace_the_profiles() {
    let mut api = client_with_session();
    api.set_port_enable_profile_id("A".to_string());
    api.set_port_disable_profile_id("B".to_string());
    let up = api.enable_port("dev1", 2);
    assert_eq!(drive(&mut api, up, vec![]).0, vec![put_request(2, "A")]);
    let down = api.disable_port("dev1", 2);
    assert_eq!(drive(&mut api, down, vec![]).0, vec![put_request(2, "B")]);
    assert!(api.has_session());
}

#[test]
fn login_gives_the_login_request() {
    assert_eq!(client().login(), login_request());
}

#[test]
fn accepted_login_opens_the_session() {
    let mut api = client();
    assert_eq!(api.login_reply(ok()), Ok(()));
    assert!(api.has_session());
}

#[test]
fn refused_login_carries_the_message() {
    let mut api = client();
    assert_eq!(
        api.login_reply(error("api.err.Invalid")),
        Err(UnifiApiErrorCode::Unknown("api.err.Invalid".to_string()))
    );
    assert!(!api.has_session());
}

#[test]
fn refused_login_does_not_classify_the_message() {
    let mut api = client();
    assert_eq!(
        api.login_reply(login_required()),
        Err(UnifiApiErrorCode::Unknown("api.err.LoginRequired".to_string()))
    );
}

#[test]
fn refused_login_keeps_an_open_session() {
    let mut api = client_with_session();
    assert!(api.login_reply(error("busy")).is_err());
    assert!(api.has_session());
}

#[test]
fn enable_port_uses_the_enabled_profile() {
    let mut api = client_with_session();
    let change = api.enable_port("dev1", 10);
    let (sent, outcome) = drive(&mut api, change, vec![ok()]);
    assert_eq!(sent, vec![put_request(10, "PROF_UP")]);
    assert_eq!(outcome, Some(Ok(())));
}

#[test]
fn disable_port_uses_the_disabled_profile() {
    let mut api = client_with_session();
    let change = api.disable_port("dev1", 10);
    let (sent, outcome) = drive(&mut api, change, vec![ok()]);
    assert_eq!(sent, vec![put_request(10, "PROF_DOWN")]);
    assert_eq!(outcome, Some(Ok(())));
}

#[test]
fn change_port_settings_uses_the_given_profile() {
    let mut api = client_with_session();
    let change = api.change_port_settings("dev9", 48, "CUSTOM");
    let (sent, _) = drive(&mut api, change, vec![ok()]);
    assert_eq!(
        sent,
        vec![Request::port_overrides("https://ctrl", "dev9", 48, "CUSTOM")]
    );
}

#[test]
fn first_change_logs_in_before_it_asks() {
    let mut api = client();
    let change = api.enable_port("dev1", 10);
    let (sent, outcome) = drive(&mut api, change, vec![ok(), ok()]);
    assert_eq!(sent, vec![login_request(), put_request(10, "PROF_UP")]);
    assert_eq!(outcome, Some(Ok(())));
    assert!(api.has_session());
}

#[test]
fn nothing_is_sent_before_the_first_step() {
    let mut api = client();
    let change = api.enable_port("dev1", 10);
    let (sent, outcome) = drive(&mut api, change, vec![]);
    assert_eq!(sent, vec![login_request()]);
    assert_eq!(outcome, None);
    assert!(!api.has_session());
}

#[test]
fn failed_first_login_ends_the_change() {
    let mut api = client();
    let change = api.enable_port("dev1", 10);
    let (sent, outcome) = drive(&mut api, change, vec![error("api.err.Invalid"), ok(), ok()]);
    assert_eq!(sent, vec![login_request()]);
    assert_eq!(
        outcome,
        Some(Err(UnifiApiErrorCode::Unknown("api.err.Invalid".to_string())))
    );
    assert!(!api.has_session());
}

#[test]
fn expired_session_is_renewed_once() {
    let mut api = client_with_session();
    let change = api.enable_port("dev1", 10);
    let (sent, outcome) = drive(&mut api, change, vec![login_required(), ok(), ok()]);
    assert_eq!(sent.len(), 3);
    assert_eq!(sent[0], put_request(10, "PROF_UP"));
    assert_eq!(sent[1], login_request());
    assert_eq!(sent[2], sent[0]);
    assert_eq!(outcome, Some(Ok(())));
}

#[test]
fn second_login_required_is_final() {
    let mut api = client_with_session();
    let change = api.disable_port("dev1", 3);
    let (sent, outcome) = drive(
        &mut api,
        change,
        vec![login_required(), ok(), login_required(), ok(), ok()],
    );
    assert_eq!(
        sent,
        vec![put_request(3, "PROF_DOWN"), login_request(), put_request(3, "PROF_DOWN")]
    );
    assert_eq!(outcome, Some(Err(UnifiApiErrorCode::LoginRequired)));
}

#[test]
fn failed_renewal_ends_the_change() {
    let mut api = client_with_session();
    let change = api.enable_port("dev1", 10);
    let (sent, outcome) = drive(
        &mut api,
        change,
        vec![login_required(), error("api.err.Invalid"), ok()],
    );
    assert_eq!(sent, vec![put_request(10, "PROF_UP"), login_request()]);
    assert_eq!(
        outcome,
        Some(Err(UnifiApiErrorCode::Unknown("api.err.Invalid".to_string())))
    );
}

#[test]
fn retry_reports_its_own_error() {
    let mut api = client_with_session();
    let change = api.enable_port("dev1", 10);
    let (sent, outcome) = drive(
        &mut api,
        change,
        vec![login_required(), ok(), error("api.err.NoPermission")],
    );
    assert_eq!(sent.len(), 3);
    assert_eq!(
        outcome,
        Some(Err(UnifiApiErrorCode::Unknown("api.err.NoPermission".to_string())))
    );
}

#[test]
fn other_error_is_not_retried() {
    let mut api = client_with_session();
    let change = api.enable_port("dev1", 10);
    let (sent, outcome) = drive(
        &mut api,
        change,
        vec![error("api.err.UnknownDevice"), ok(), ok()],
    );
    assert_eq!(sent, vec![put_request(10, "PROF_UP")]);
    assert_eq!(
        outcome,
        Some(Err(UnifiApiErrorCode::Unknown("api.err.UnknownDevice".to_string())))
    );
}

#[test]
fn first_change_can_take_four_requests_and_no_more() {
    let mut api = client();
    let change = api.enable_port("dev1", 10);
    let (sent, outcome) = drive(
        &mut api,
        change,
        vec![ok(), login_required(), ok(), login_required(), ok(), ok()],
    );
    assert_eq!(
        sent,
        vec![
            login_request(),
            put_request(10, "PROF_UP"),
            login_request(),
            put_request(10, "PROF_UP"),
        ]
    );
    assert_eq!(outcome, Some(Err(UnifiApiErrorCode::LoginRequired)));
}

#[test]
fn finished_change_ignores_further_replies() {
    let mut api = client_with_session();
    let change = api.enable_port("dev1", 10);
    let change = api.on_reply(change, error("api.err.UnknownDevice"));
    let change = api.on_reply(change, ok());
    let change = api.on_reply(change, error_without_message());
    match api.step(&change) {
        Step::Done(outcome) => assert_eq!(
            outcome,
            Err(UnifiApiErrorCode::Unknown("api.err.UnknownDevice".to_string()))
        ),
        Step::Send(request) => panic!("nothing should be sent, got {:?}", request),
    }
}

#[test]
fn step_does_not_move_the_change() {
    let api = client_with_session();
    let change = api.enable_port("dev1", 10);
    let first = api.step(&change);
    let second = api.step(&change);
    match (first, second) {
        (Step::Send(a), Step::Send(b)) => assert_eq!(a, b),
        other => panic!("two requests expected, got {:?}", other),
    }
}

#[test]
fn success_message_is_not_read() {
    let mut api = client_with_session();
    let change = api.enable_port("dev1", 10);
    let reply = UnifiApiResponse {
        meta: UnifiApiMetaResponse {
            rc: UnifiApiReturnCode::Success,
            msg: Some("api.err.LoginRequired".to_string()),
        },
    };
    let (sent, outcome) = drive(&mut api, change, vec![reply]);
    assert_eq!(sent.len(), 1);
    assert_eq!(outcome, Some(Ok(())));
}

#[test]
fn login_error_without_message_fails_with_empty_text() {
    let mut api = UnifiApi::new("https://ctrl", "u", "p");
    assert_eq!(
        api.login_reply(error_without_message()),
        Err(UnifiApiErrorCode::Unknown(String::new()))
    );
    assert!(!api.has_session());
}

#[test]
fn login_error_without_message_keeps_an_open_session() {
    let mut api = client_with_session();
    assert_eq!(
        api.login_reply(error_without_message()),
        Err(UnifiApiErrorCode::Unknown(String::new()))
    );
    assert!(api.has_session());
}

#[test]
fn error_without_message_ends_the_first_login() {
    let mut api = client();
    let change = api.enable_port("dev1", 10);
    let (sent, outcome) = drive(&mut api, change, vec![error_without_message(), ok(), ok()]);
    assert_eq!(sent, vec![login_request()]);
    assert_eq!(outcome, nameless_failure());
    assert!(!api.has_session());
}

#[test]
fn error_without_message_ends_the_change_without_a_login() {
    let mut api = client_with_session();
    let change = api.enable_port("dev1", 10);
    let (sent, outcome) = drive(&mut api, change, vec![error_without_message(), ok(), ok()]);
    assert_eq!(sent, vec![put_request(10, "PROF_UP")]);
    assert_eq!(outcome, nameless_failure());
}

#[test]
fn error_without_message_ends_the_renewal() {
    let mut api = client_with_session();
    let change = api.enable_port("dev1", 10);
    let (sent, outcome) = drive(
        &mut api,
        change,
        vec![login_required(), error_without_message(), ok()],
    );
    assert_eq!(sent, vec![put_request(10, "PROF_UP"), login_request()]);
    assert_eq!(outcome, nameless_failure());
}

#[test]
fn error_without_message_ends_the_retry() {
    let mut api = client_with_session();
    let change = api.disable_port("dev1", 10);
    let (sent, outcome) = drive(
        &mut api,
        change,
        vec![login_required(), ok(), error_without_message(), ok()],
    );
    assert_eq!(
        sent,
        vec![put_request(10, "PROF_DOWN"), login_request(), put_request(10, "PROF_DOWN")]
    );
    assert_eq!(outcome, nameless_failure());
}

#[test]
fn empty_message_is_an_unclassified_error() {
    let mut api = client_with_session();
    let change = api.enable_port("dev1", 10);
    let (sent, outcome) = drive(&mut api, change, vec![error(""), ok()]);
    assert_eq!(sent.len(), 1);
    assert_eq!(outcome, nameless_failure());
}
