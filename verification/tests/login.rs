use base64::Engine;
use codex_relay::api::{
    api_codex_login_poll, api_codex_login_start, api_delete_codex_credential,
    api_get_codex_credentials, login_credential, CallAction, DeviceCodePollRequest, LoginAction,
    LoginEvent,
};
use codex_relay::codex_actor::{CodexActorMessage, CodexCredentialInfo};
use codex_relay::codex_state::CodexState;
use codex_relay::config::{CodexTokenInfo, Timestamp};
use codex_relay::error::{ApiError, ClewdrError};
use codex_relay::exchange::{
    default_interval, deserialize_interval, Answer, DeviceCodeResponse, DeviceTokenError,
    DeviceTokenResponse, PollAnswer, RawDeviceCodeResponse, RefreshTokenResponse, StringOrU64,
    TokenExchangeResponse,
};
use codex_relay::jwt::{extract_jwt_claim, extract_nested_jwt_claim, payload_of};
use codex_relay::wire::{Field, HttpRequest, Method, Payload};

const NOW: Timestamp = Timestamp { seconds: 1_750_000_000, nanos: 7 };

fn jwt(payload: &str) -> String {
    format!("head.{}.sign", base64::engine::general_purpose::URL_SAFE_NO_PAD.encode(payload))
}

fn pairs(list: &[Field]) -> Vec<(String, String)> {
    list.iter().map(|f| (f.name.clone(), f.value.clone())).collect()
}

fn json(request: &HttpRequest) -> Vec<(String, String)> {
    match &request.payload {
        Payload::Json(list) => pairs(list),
        other => panic!("{:?}", other),
    }
}

fn strings(list: &[(&str, &str)]) -> Vec<(String, String)> {
    list.iter().map(|(a, b)| (a.to_string(), b.to_string())).collect()
}

fn tokens() -> CodexTokenInfo {
    CodexTokenInfo {
        access_token: jwt(r#"{"https://api.openai.com/auth": {"chatgpt_account_id": "acc-1"}}"#),
        refresh_token: "refresh".to_string(),
        id_token: Some(jwt(r#"{"email": "a@b.c"}"#)),
        last_refresh: NOW,
    }
}

fn bad_request(error: ClewdrError) -> &'static str {
    match error {
        ClewdrError::BadRequest { msg } => msg,
        other => panic!("{:?}", other),
    }
}

fn wreq(error: ClewdrError) -> (&'static str, String) {
    match error {
        ClewdrError::WreqError { msg, source } => (msg, source),
        other => panic!("{:?}", other),
    }
}

fn internal(error: ApiError) -> String {
    match error {
        ApiError::Internal(message) => message,
        other => panic!("{:?}", other),
    }
}

#[test]
fn claims_are_extracted() {
    let token = jwt(r#"{"email": "a@b.c", "n": 3, "in": {"x": "y", "z": 1}}"#);
    assert_eq!(extract_jwt_claim(&token, "email").as_deref(), Some("a@b.c"));
    assert_eq!(extract_jwt_claim(&token, "n"), None);
    assert_eq!(extract_jwt_claim(&token, "none"), None);
    assert_eq!(extract_nested_jwt_claim(&token, "in", "x").as_deref(), Some("y"));
    assert_eq!(extract_nested_jwt_claim(&token, "in", "z"), None);
    assert_eq!(extract_nested_jwt_claim(&token, "email", "x"), None);
    assert_eq!(extract_nested_jwt_claim(&token, "none", "x"), None);
}

#[test]
fn the_signature_has_no_bearing() {
    let token = jwt(r#"{"email": "a@b.c"}"#);
    let other = token.replace("head", "other").replace("sign", "");
    assert_eq!(extract_jwt_claim(&other, "email").as_deref(), Some("a@b.c"));
}

#[test]
fn malformed_tokens_have_no_claims() {
    let payload = base64::engine::general_purpose::URL_SAFE_NO_PAD.encode(r#"{"email": "x"}"#);
    assert_eq!(payload_of("a.b.c").as_deref(), Some("b"));
    for token in [
        format!("a.{}", payload),
        format!("a.{}.b.c", payload),
        format!("a.{}==.b", payload),
        "a.!!!.b".to_string(),
        "a..b".to_string(),
        "".to_string(),
        format!("a.{}.b", base64::engine::general_purpose::URL_SAFE_NO_PAD.encode("no json")),
    ] {
        assert_eq!(extract_jwt_claim(&token, "email"), None, "{}", token);
    }
}

#[test]
fn intervals_come_as_numbers_or_strings() {
    assert_eq!(default_interval(), 5);
    assert_eq!(deserialize_interval(StringOrU64::Num(7)), Ok(7));
    assert_eq!(deserialize_interval(StringOrU64::Str("5".to_string())), Ok(5));
    assert_eq!(deserialize_interval(StringOrU64::Str(" 12\n".to_string())), Ok(12));
    for text in [
        "",
        "x",
        "+",
        "-1",
        "99999999999999999999",
        "18446744073709551615a",
        "18446744073709551616a",
        "99999999999999999999a",
        "999999999999999999999a",
        "1844674407370955161a",
    ] {
        let want = text.parse::<u64>().unwrap_err();
        assert_eq!(
            deserialize_interval(StringOrU64::Str(text.to_string())),
            Err(format!("invalid interval string: {}", want))
        );
    }
}

#[test]
fn device_codes_are_requested() {
    let request = CodexState::device_code_request("https://auth/x", "client");
    assert_eq!(request.method, Method::Post);
    assert_eq!(request.url, "https://auth/x");
    assert!(request.bearer.is_none() && request.headers.is_empty());
    assert_eq!(json(&request), strings(&[("client_id", "client")]));
}

#[test]
fn device_codes_are_judged() {
    let raw = || RawDeviceCodeResponse {
        user_code: "UC".to_string(),
        device_auth_id: "DA".to_string(),
        interval: 5,
    };
    let code = CodexState::request_device_code(
        "https://verify",
        Answer::Replied { status: 200, body: Ok(raw()) },
    )
    .unwrap();
    assert_eq!(code.verification_url, "https://verify");
    assert_eq!((code.user_code.as_str(), code.device_auth_id.as_str(), code.interval), ("UC", "DA", 5));
    let error = CodexState::request_device_code("v", Answer::Unsent { source: "s".to_string() });
    assert_eq!(wreq(error.unwrap_err()), ("Failed to request device code", "s".to_string()));
    let error =
        CodexState::request_device_code("v", Answer::Replied { status: 500, body: Ok(raw()) });
    assert_eq!(bad_request(error.unwrap_err()), "Failed to get device code from OpenAI");
    let error = CodexState::request_device_code(
        "v",
        Answer::Replied { status: 200, body: Err("p".to_string()) },
    );
    assert_eq!(wreq(error.unwrap_err()), ("Failed to parse device code response", "p".to_string()));
}

fn refusal(status: u16, code: Option<&str>) -> PollAnswer {
    PollAnswer::Replied {
        status,
        token: None,
        error: Some(DeviceTokenError { error: code.map(|c| c.to_string()) }),
    }
}

#[test]
fn polls_are_judged() {
    let request = CodexState::device_poll_request("u", "DA", "UC");
    assert_eq!(json(&request), strings(&[("device_auth_id", "DA"), ("user_code", "UC")]));
    let granted = CodexState::poll_device_code_once(PollAnswer::Replied {
        status: 200,
        token: Some(DeviceTokenResponse {
            authorization_code: "code".to_string(),
            code_verifier: Some("v".to_string()),
            code_challenge: None,
        }),
        error: None,
    });
    assert_eq!(granted.unwrap(), Some(("code".to_string(), Some("v".to_string()), None)));
    for answer in [
        refusal(400, Some("authorization_pending")),
        refusal(429, Some("slow_down")),
        refusal(403, Some("something_else")),
        refusal(403, None),
        PollAnswer::Replied { status: 404, token: None, error: None },
    ] {
        assert_eq!(CodexState::poll_device_code_once(answer).unwrap(), None);
    }
    let error = |answer| CodexState::poll_device_code_once(answer).unwrap_err();
    assert_eq!(bad_request(error(refusal(400, Some("expired_token")))), "Device code expired");
    assert_eq!(
        bad_request(error(refusal(400, Some("access_denied")))),
        "Device code access denied by user"
    );
    assert_eq!(
        bad_request(error(refusal(200, None))),
        "Failed to parse device token response"
    );
    assert_eq!(
        wreq(error(PollAnswer::Unsent { source: "s".to_string() })),
        ("Failed to poll device token", "s".to_string())
    );
}

#[test]
fn codes_are_exchanged_by_form() {
    let request = CodexState::token_exchange_request("u", "client", "code", Some("v"));
    assert_eq!(
        pairs(&request.headers),
        strings(&[("Content-Type", "application/x-www-form-urlencoded")])
    );
    let want = [
        ("client_id", "client"),
        ("grant_type", "authorization_code"),
        ("code", "code"),
        ("redirect_uri", "https://auth.openai.com/deviceauth/callback"),
        ("code_verifier", "v"),
    ];
    match &request.payload {
        Payload::Form(list) => assert_eq!(pairs(list), strings(&want)),
        other => panic!("{:?}", other),
    }
    match CodexState::token_exchange_request("u", "client", "code", None).payload {
        Payload::Form(list) => assert_eq!(pairs(&list), strings(&want[..4])),
        other => panic!("{:?}", other),
    }
}

#[test]
fn exchanges_are_judged() {
    let body = || TokenExchangeResponse {
        access_token: "a".to_string(),
        refresh_token: "r".to_string(),
        id_token: None,
    };
    let info = CodexState::exchange_code_for_tokens(
        Answer::Replied { status: 201, body: Ok(body()) },
        NOW,
    )
    .unwrap();
    assert_eq!((info.access_token.as_str(), info.refresh_token.as_str()), ("a", "r"));
    assert_eq!((info.id_token, info.last_refresh), (None, NOW));
    let error = |answer| CodexState::exchange_code_for_tokens(answer, NOW).unwrap_err();
    assert_eq!(
        wreq(error(Answer::Unsent { source: "s".to_string() })),
        ("Failed to exchange code for tokens", "s".to_string())
    );
    assert_eq!(
        bad_request(error(Answer::Replied { status: 400, body: Ok(body()) })),
        "Failed to exchange authorization code for tokens"
    );
    assert_eq!(
        wreq(error(Answer::Replied { status: 200, body: Err("p".to_string()) })),
        ("Failed to parse token exchange response", "p".to_string())
    );
}

#[test]
fn refreshes_keep_what_the_reply_leaves_out() {
    let current = tokens();
    let request = CodexState::token_refresh_request("u", "client", &current);
    assert_eq!(
        json(&request),
        strings(&[
            ("client_id", "client"),
            ("grant_type", "refresh_token"),
            ("refresh_token", "refresh"),
            ("scope", "openid profile email"),
        ])
    );
    let later = Timestamp { seconds: NOW.seconds + 1, nanos: 0 };
    let body = |refresh: Option<&str>, id: Option<&str>| RefreshTokenResponse {
        access_token: "new".to_string(),
        refresh_token: refresh.map(|s| s.to_string()),
        id_token: id.map(|s| s.to_string()),
    };
    let kept = CodexState::refresh_token(
        &current,
        Answer::Replied { status: 200, body: Ok(body(None, None)) },
        later,
    )
    .unwrap();
    assert_eq!(kept.access_token, "new");
    assert_eq!(kept.refresh_token, "refresh");
    assert_eq!(kept.id_token, current.id_token);
    assert_eq!(kept.last_refresh, later);
    let changed = CodexState::refresh_token(
        &current,
        Answer::Replied { status: 200, body: Ok(body(Some("r2"), Some("i2"))) },
        later,
    )
    .unwrap();
    assert_eq!(changed.refresh_token, "r2");
    assert_eq!(changed.id_token.as_deref(), Some("i2"));
    let error = |answer| CodexState::refresh_token(&current, answer, later).unwrap_err();
    assert_eq!(
        wreq(error(Answer::Unsent { source: "s".to_string() })),
        ("Failed to refresh codex token", "s".to_string())
    );
    assert_eq!(
        bad_request(error(Answer::Replied { status: 401, body: Ok(body(None, None)) })),
        "Failed to refresh codex token - re-login required"
    );
    assert_eq!(
        wreq(error(Answer::Replied { status: 200, body: Err("p".to_string()) })),
        ("Failed to parse refresh token response", "p".to_string())
    );
}

#[test]
fn a_login_names_its_account() {
    let credential = login_credential(tokens());
    assert_eq!(credential.label.as_deref(), Some("a@b.c"));
    assert_eq!(credential.account_id.as_deref(), Some("acc-1"));
    assert!(credential.reset_time.is_none());
    let mut bare = tokens();
    bare.id_token = None;
    bare.access_token = "opaque".to_string();
    let credential = login_credential(bare);
    assert!(credential.label.is_none() && credential.account_id.is_none());
    assert_eq!(credential.token.unwrap().access_token, "opaque");
}

fn poll_request() -> DeviceCodePollRequest {
    DeviceCodePollRequest { device_auth_id: "DA".to_string(), user_code: "UC".to_string() }
}

#[test]
fn strangers_are_not_admitted() {
    assert!(matches!(
        api_codex_login_start(false).1,
        CallAction::Reply(Err(ApiError::Unauthorized))
    ));
    assert!(matches!(
        api_get_codex_credentials(false).1,
        CallAction::Reply(Err(ApiError::Unauthorized))
    ));
    assert!(matches!(
        api_delete_codex_credential(false, login_credential(tokens())).1,
        CallAction::Reply(Err(ApiError::Unauthorized))
    ));
    let (_, action) = api_codex_login_poll(false, poll_request());
    assert!(matches!(action, LoginAction::Reply(Err(ApiError::Unauthorized))));
}

#[test]
fn a_login_is_completed() {
    let (poll, action) = api_codex_login_poll(true, poll_request());
    match action {
        LoginAction::Poll(r) => assert_eq!((r.device_auth_id, r.user_code), ("DA".to_string(), "UC".to_string())),
        other => panic!("{:?}", other),
    }
    let (poll, action) = poll.step(LoginEvent::Polled(Ok(Some((
        "code".to_string(),
        Some("v".to_string()),
        None,
    )))));
    match action {
        LoginAction::Exchange { authorization_code, code_verifier } => {
            assert_eq!(authorization_code, "code");
            assert_eq!(code_verifier.as_deref(), Some("v"));
        }
        other => panic!("{:?}", other),
    }
    let (poll, action) = poll.step(LoginEvent::Exchanged(Ok(tokens())));
    match action {
        LoginAction::Submit(c) => assert_eq!(c.account_id.as_deref(), Some("acc-1")),
        other => panic!("{:?}", other),
    }
    let (_, action) = poll.step(LoginEvent::Submitted(Ok(())));
    match action {
        LoginAction::Reply(Ok(r)) => {
            assert_eq!(r.status, "complete");
            assert_eq!(r.label.as_deref(), Some("a@b.c"));
        }
        other => panic!("{:?}", other),
    }
}

#[test]
fn a_login_can_be_pending_or_fail() {
    let start = || api_codex_login_poll(true, poll_request()).0;
    let code = || LoginEvent::Polled(Ok(Some(("code".to_string(), None, None))));
    match start().step(LoginEvent::Polled(Ok(None))).1 {
        LoginAction::Reply(Ok(r)) => assert!(r.status == "pending" && r.label.is_none()),
        other => panic!("{:?}", other),
    }
    match start().step(LoginEvent::Polled(Err("expired".to_string()))).1 {
        LoginAction::Reply(Err(ApiError::BadRequest(m))) => assert_eq!(m, "expired"),
        other => panic!("{:?}", other),
    }
    match start().step(code()).0.step(LoginEvent::Exchanged(Err("no".to_string()))).1 {
        LoginAction::Reply(Err(e)) => assert_eq!(internal(e), "Token exchange failed: no"),
        other => panic!("{:?}", other),
    }
    let submitting = start().step(code()).0.step(LoginEvent::Exchanged(Ok(tokens()))).0;
    match submitting.step(LoginEvent::Submitted(Err("gone".to_string()))).1 {
        LoginAction::Reply(Err(e)) => assert_eq!(internal(e), "Failed to save credential"),
        other => panic!("{:?}", other),
    }
}

#[test]
fn administrators_get_their_replies() {
    let code = DeviceCodeResponse {
        verification_url: "V".to_string(),
        user_code: "UC".to_string(),
        device_auth_id: "DA".to_string(),
        interval: 9,
    };
    let (start, action) = api_codex_login_start(true);
    assert!(matches!(action, CallAction::RequestDeviceCode));
    let started = start.step(Ok(code)).unwrap();
    assert_eq!(
        (started.verification_url.as_str(), started.user_code.as_str()),
        ("V", "UC")
    );
    assert_eq!((started.device_auth_id.as_str(), started.interval), ("DA", 9));
    assert_eq!(
        internal(api_codex_login_start(true).0.step(Err("x".to_string())).unwrap_err()),
        "Failed to start device code login: x"
    );
    let info = CodexCredentialInfo { valid: vec![login_credential(tokens())], exhausted: vec![] };
    let (listing, action) = api_get_codex_credentials(true);
    assert!(matches!(action, CallAction::Ask(CodexActorMessage::GetStatus)));
    assert_eq!(listing.step(Ok(info)).unwrap().valid.len(), 1);
    assert_eq!(
        internal(api_get_codex_credentials(true).0.step(Err("x".to_string())).unwrap_err()),
        "Failed to get codex credentials: x"
    );
    let (deletion, action) = api_delete_codex_credential(true, login_credential(tokens()));
    match action {
        CallAction::Ask(CodexActorMessage::Delete(c)) => {
            assert_eq!(c.account_id.as_deref(), Some("acc-1"))
        }
        other => panic!("{:?}", other),
    }
    assert_eq!(deletion.step(Ok(())).unwrap(), 204);
    let (deletion, _) = api_delete_codex_credential(true, login_credential(tokens()));
    assert_eq!(
        internal(deletion.step(Err("x".to_string())).unwrap_err()),
        "Failed to delete credential: x"
    );
}
