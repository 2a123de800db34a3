use github_export::device_flow::{
    decide_device_code_reply, decide_poll, poll_step, read_device_code_reply, DeviceCodeMembers, PollAction,
    PollEvent, TokenMembers,
};

fn reply(code: u16, status: &str, body: &str) -> PollEvent {
    PollEvent::Reply { status_code: code, status: status.to_string(), body: body.to_string() }
}

#[test]
fn device_code_reply_is_read() {
    let body = r#"{"device_code":"dc","user_code":"ABCD-1234","verification_uri":"https://github.com/login/device","expires_in":600,"interval":7}"#;
    let start = read_device_code_reply(200, "200 OK", body).unwrap();
    assert_eq!(start.device_code, "dc");
    assert_eq!(start.user_code, "ABCD-1234");
    assert_eq!(start.verification_uri, "https://github.com/login/device");
    assert_eq!(start.expires_in, 600);
    assert_eq!(start.interval, 7);
}

#[test]
fn device_code_reply_defaults_expiry_and_interval() {
    let body = r#"{"device_code":"dc","user_code":"u","verification_uri":"v"}"#;
    let start = read_device_code_reply(200, "200 OK", body).unwrap();
    assert_eq!(start.expires_in, 900);
    assert_eq!(start.interval, 5);
}

#[test]
fn device_code_http_failure() {
    let err = read_device_code_reply(404, "404 Not Found", r#"{"error":"not_found","error_description":"nope"}"#).unwrap_err();
    assert_eq!(
        err,
        "GitHub returned HTTP 404 Not Found: not_found — nope\nVerify that the Client ID is correct and Device Flow is enabled on your OAuth App at https://github.com/settings/developers"
    );
    let err = read_device_code_reply(500, "500 Internal Server Error", "oops").unwrap_err();
    assert!(err.starts_with("GitHub returned HTTP 500 Internal Server Error: unknown error — oops\n"));
}

#[test]
fn device_code_error_in_success_reply() {
    let err = read_device_code_reply(200, "200 OK", r#"{"error":"unauthorized_client"}"#).unwrap_err();
    assert_eq!(
        err,
        "GitHub auth error: unauthorized_client — No description provided by GitHub.\nIf the error is \"unauthorized_client\", ensure Device Flow is enabled on your OAuth App at https://github.com/settings/developers"
    );
}

#[test]
fn device_code_missing_fields() {
    assert_eq!(read_device_code_reply(200, "200 OK", "{}").unwrap_err(), "Missing device_code in response");
    assert_eq!(
        read_device_code_reply(200, "200 OK", r#"{"device_code":"d"}"#).unwrap_err(),
        "Missing user_code in response"
    );
    assert_eq!(
        read_device_code_reply(200, "200 OK", r#"{"device_code":"d","user_code":"u"}"#).unwrap_err(),
        "Missing verification_uri in response"
    );
}

#[test]
fn poll_token_arrives() {
    match poll_step(5, &reply(200, "200 OK", r#"{"access_token":"gho_abc","token_type":"bearer"}"#)) {
        PollAction::Authorized(t) => assert_eq!(t, "gho_abc"),
        other => panic!("unexpected {:?}", other),
    }
}

#[test]
fn poll_pending_and_slow_down() {
    match poll_step(5, &reply(200, "200 OK", r#"{"error":"authorization_pending"}"#)) {
        PollAction::Wait { interval } => assert_eq!(interval, 5),
        other => panic!("unexpected {:?}", other),
    }
    match poll_step(5, &reply(200, "200 OK", r#"{"error":"slow_down"}"#)) {
        PollAction::Wait { interval } => assert_eq!(interval, 10),
        other => panic!("unexpected {:?}", other),
    }
}

fn failure(action: PollAction) -> String {
    match action {
        PollAction::Fail(m) => m,
        other => panic!("unexpected {:?}", other),
    }
}

#[test]
fn poll_failures() {
    assert_eq!(
        failure(poll_step(5, &reply(200, "200 OK", r#"{"error":"expired_token"}"#))),
        "The authorization code expired. Please sign in again."
    );
    assert_eq!(
        failure(poll_step(5, &reply(200, "200 OK", r#"{"error":"access_denied"}"#))),
        "Authorization was denied. Please try again."
    );
    assert_eq!(
        failure(poll_step(5, &reply(200, "200 OK", r#"{"error":"incorrect_device_code"}"#))),
        "Authorization error: incorrect_device_code"
    );
    assert_eq!(
        failure(poll_step(5, &reply(200, "200 OK", "{}"))),
        "Unexpected response from GitHub authorization server."
    );
    assert_eq!(
        failure(poll_step(5, &reply(502, "502 Bad Gateway", "gateway down"))),
        "GitHub returned HTTP 502 Bad Gateway: unknown error — gateway down"
    );
    assert_eq!(failure(poll_step(5, &PollEvent::DeadlinePassed)), "Authorization timed out. Please try again.");
}

fn members(error: Option<&str>, device_code: Option<&str>) -> DeviceCodeMembers {
    DeviceCodeMembers {
        error: error.map(|s| s.to_string()),
        error_description: None,
        device_code: device_code.map(|s| s.to_string()),
        user_code: Some("WXYZ-0000".to_string()),
        verification_uri: Some("https://github.com/login/device".to_string()),
        expires_in: None,
        interval: Some(10),
    }
}

#[test]
fn device_code_decision_on_given_members() {
    let start = decide_device_code_reply(200, "200 OK", "{}", members(None, Some("dc"))).unwrap();
    assert_eq!((start.device_code.as_str(), start.user_code.as_str()), ("dc", "WXYZ-0000"));
    assert_eq!((start.expires_in, start.interval), (900, 10));
    let err = decide_device_code_reply(200, "200 OK", "{}", members(None, None)).unwrap_err();
    assert_eq!(err, "Missing device_code in response");
    let err = decide_device_code_reply(200, "200 OK", "{}", members(Some("unauthorized_client"), Some("dc"))).unwrap_err();
    assert!(err.starts_with("GitHub auth error: unauthorized_client — No description provided by GitHub."), "{err}");
    let err = decide_device_code_reply(500, "500 Internal Server Error", "oops", members(None, Some("dc"))).unwrap_err();
    assert!(err.starts_with("GitHub returned HTTP 500 Internal Server Error: unknown error — oops\n"), "{err}");
}

fn token(access_token: Option<&str>, error: Option<&str>) -> TokenMembers {
    TokenMembers {
        access_token: access_token.map(|s| s.to_string()),
        error: error.map(|s| s.to_string()),
        error_description: Some("described".to_string()),
    }
}

#[test]
fn poll_decision_on_given_members() {
    assert!(matches!(decide_poll(5, 200, "200 OK", "", token(Some("gho_x"), None)), PollAction::Authorized(t) if t == "gho_x"));
    assert!(matches!(decide_poll(5, 200, "200 OK", "", token(None, Some("slow_down"))), PollAction::Wait { interval: 10 }));
    assert!(matches!(decide_poll(5, 200, "200 OK", "", token(None, Some("authorization_pending"))), PollAction::Wait { interval: 5 }));
    assert!(matches!(decide_poll(5, 200, "200 OK", "", token(None, Some("bad"))), PollAction::Fail(m) if m == "Authorization error: bad"));
    assert!(matches!(decide_poll(5, 401, "401 Unauthorized", "x", token(None, Some("bad"))),
        PollAction::Fail(m) if m == "GitHub returned HTTP 401 Unauthorized: bad — described"));
}
