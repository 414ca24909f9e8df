use codex_relay::chat::{backoff_millis, ChatAction, ChatEvent, ChatSession, Directive};
use codex_relay::codex_actor::{CodexActor, CodexActorMessage};
use codex_relay::codex_state::{CodexState, CodexTokenStatus};
use codex_relay::config::{CodexCredential, CodexTokenInfo, Timestamp};
use codex_relay::endpoint::{
    bootstrap_url, models_url, names_client_version, responses_url, ModelsUrl, URL_LIMIT,
};
use codex_relay::error::{ClaudeErrorBody, ClewdrError};
use codex_relay::forward::{
    request_wants_stream, ForwardAction, ForwardEvent, Forwarding, Relayed, Verdict,
};
use codex_relay::provider::{
    CodexProvider, ModelsAction, ModelsDirective, ModelsEvent, ModelsSession,
};
use codex_relay::wire::{is_server_error, is_success, passthrough_headers, Header, Method, Payload};

const BASE: &str = "https://chat.example/backend/codex/";

fn token(name: &str) -> CodexTokenInfo {
    CodexTokenInfo {
        access_token: format!("access-{}", name),
        refresh_token: format!("refresh-{}", name),
        id_token: None,
        last_refresh: Timestamp { seconds: 0, nanos: 0 },
    }
}

fn cred(name: &str) -> CodexCredential {
    CodexCredential {
        token: Some(token(name)),
        account_id: Some(name.to_string()),
        label: None,
        reset_time: None,
    }
}

fn granted(credential: CodexCredential, stale: bool) -> ChatEvent {
    ChatEvent::Credential { granted: Ok(credential), client: Ok(()), stale }
}

fn refused(code: u16) -> ChatEvent {
    ChatEvent::Forwarded(Err(ClewdrError::ClaudeHttpError {
        code,
        inner: ClaudeErrorBody {
            message: "m".to_string(),
            kind: "codex_error".to_string(),
            code: Some(code),
        },
    }))
}

fn start(max_retries: usize) -> ChatSession {
    let mut state = CodexState::new(BASE.to_string());
    let (session, action) = state.try_chat(max_retries);
    assert!(matches!(action, ChatAction::RequestCredential));
    session
}

fn forwarding(max_retries: usize) -> ChatSession {
    let (session, directive) = start(max_retries).step(granted(cred("a"), false));
    assert!(matches!(directive.action, ChatAction::Forward(t) if t == "access-a"));
    session
}

#[test]
fn a_session_leaves_its_state_alone() {
    let mut state = CodexState::new(BASE.to_string());
    state.request_credential(Ok(cred("mine")), Ok(())).unwrap();
    let (session, _) = state.try_chat(1);
    assert!(session.state().credential.is_none());
    let session = session.step(granted(cred("a"), false)).0;
    assert_eq!(session.state().credential.as_ref().unwrap().account_id.as_deref(), Some("a"));
    let session = session.step(refused(429)).0;
    assert!(session.state().credential.is_none());
    assert_eq!(session.state().endpoint, BASE);
    assert_eq!(state.credential.unwrap().account_id.as_deref(), Some("mine"));
    assert_eq!(state.endpoint, BASE);
}

#[test]
fn a_session_takes_what_it_waits_for() {
    let session = start(100);
    assert!(session.takes(&granted(cred("a"), false)));
    assert!(!session.takes(&ChatEvent::Slept));
    assert!(!session.takes(&refused(503)));
    let session = forwarding(100);
    assert!(session.takes(&refused(503)));
    assert!(!session.takes(&ChatEvent::Refreshed(Ok(token("a")))));
    let mut session = start(100);
    for _ in 0..55 {
        session = session.step(granted(cred("a"), false)).0.step(refused(429)).0;
    }
    let session = session.step(granted(cred("a"), false)).0;
    assert_eq!(session.attempt(), 55);
    assert!(!session.takes(&refused(503)));
    assert!(session.takes(&refused(429)));
    let session = session.step(refused(401)).0;
    assert!(session.takes(&ChatEvent::Refreshed(Err(ClewdrError::TooManyRetries))));
}

fn reason(directive: &Directive) -> Option<&'static str> {
    directive.give_back.as_ref().unwrap().reason
}

#[test]
fn tokens_are_checked() {
    let mut state = CodexState::new(BASE.to_string());
    assert!(state.stream && state.endpoint == BASE);
    assert_eq!(state.check_token(false), CodexTokenStatus::Missing);
    assert!(state.return_credential(None).is_none());
    let got = state.request_credential(Ok(cred("a")), Ok(())).unwrap();
    assert_eq!(got.account_id.as_deref(), Some("a"));
    assert_eq!(state.check_token(false), CodexTokenStatus::Valid);
    assert_eq!(state.check_token(true), CodexTokenStatus::Stale);
    let mut bare = cred("b");
    bare.token = None;
    match state.request_credential(Ok(bare), Err("tls".to_string())) {
        Err(ClewdrError::WreqError { msg, source }) => {
            assert_eq!(msg, "Failed to build codex client with new credential");
            assert_eq!(source, "tls");
        }
        other => panic!("{:?}", other),
    }
    assert_eq!(state.check_token(true), CodexTokenStatus::Missing);
    assert!(state.request_credential(Err(ClewdrError::NoCookieAvailable), Ok(())).is_err());
    assert_eq!(state.credential.as_ref().unwrap().account_id.as_deref(), Some("b"));
    match state.return_credential(Some("why")).unwrap().into_message() {
        CodexActorMessage::Return(c, r) => {
            assert_eq!(c.account_id.as_deref(), Some("b"));
            assert_eq!(r.as_deref(), Some("why"));
        }
        other => panic!("{:?}", other),
    }
}

#[test]
fn a_valid_token_is_used_and_the_answer_delivered() {
    let (_, directive) = forwarding(3).step(ChatEvent::Forwarded(Ok(())));
    assert!(matches!(directive.action, ChatAction::Deliver));
    assert!(directive.give_back.is_none());
}

#[test]
fn a_stale_token_is_refreshed_first() {
    let (session, directive) = start(3).step(granted(cred("a"), true));
    assert!(matches!(directive.action, ChatAction::Refresh(t) if t.refresh_token == "refresh-a"));
    let (_, directive) = session.step(ChatEvent::Refreshed(Ok(token("new"))));
    assert_eq!(reason(&directive), None);
    let back = directive.give_back.as_ref().unwrap();
    assert_eq!(back.credential.token.as_ref().unwrap().access_token, "access-new");
    assert_eq!(back.credential.account_id.as_deref(), Some("a"));
    assert!(matches!(directive.action, ChatAction::Forward(t) if t == "access-new"));
}

#[test]
fn a_failed_refresh_of_a_stale_token_is_the_answer() {
    let (session, _) = start(3).step(granted(cred("a"), true));
    let error = ClewdrError::BadRequest { msg: "re-login" };
    let (_, directive) = session.step(ChatEvent::Refreshed(Err(error)));
    assert!(matches!(
        directive.action,
        ChatAction::Fail(ClewdrError::BadRequest { msg: "re-login" })
    ));
}

#[test]
fn a_credential_without_token_needs_a_login() {
    let mut bare = cred("a");
    bare.token = None;
    let (_, directive) = start(3).step(granted(bare, false));
    assert!(matches!(
        directive.action,
        ChatAction::Fail(ClewdrError::BadRequest {
            msg: "No Codex token available - login required via dashboard"
        })
    ));
}

#[test]
fn an_empty_pool_ends_the_session() {
    let (_, directive) = start(3).step(ChatEvent::Credential {
        granted: Err(ClewdrError::NoCookieAvailable),
        client: Ok(()),
        stale: false,
    });
    assert!(matches!(directive.action, ChatAction::Fail(ClewdrError::NoCookieAvailable)));
}

#[test]
fn a_refused_token_is_refreshed_and_tried_again() {
    let (session, directive) = forwarding(3).step(refused(401));
    assert!(directive.give_back.is_none());
    assert!(matches!(directive.action, ChatAction::Refresh(t) if t.access_token == "access-a"));
    let (session, directive) = session.step(ChatEvent::Refreshed(Ok(token("new"))));
    assert_eq!(reason(&directive), None);
    assert!(matches!(directive.action, ChatAction::RequestCredential));
    assert_eq!(session.attempt(), 1);
}

#[test]
fn a_refused_token_that_cannot_be_refreshed_goes_back_with_a_reason() {
    let (session, _) = forwarding(3).step(refused(401));
    let (_, directive) = session.step(ChatEvent::Refreshed(Err(ClewdrError::TooManyRetries)));
    assert_eq!(reason(&directive), Some("Token refresh failed"));
    assert!(matches!(directive.action, ChatAction::RequestCredential));
}

#[test]
fn a_rate_limit_leads_to_another_credential() {
    let (session, directive) = forwarding(3).step(refused(429));
    assert_eq!(reason(&directive), Some("Rate limited"));
    assert!(matches!(directive.action, ChatAction::RequestCredential));
    let (_, directive) = session.step(granted(cred("b"), false));
    assert!(matches!(directive.action, ChatAction::Forward(t) if t == "access-b"));
}

#[test]
fn a_rate_limited_credential_stays_in_the_pool() {
    let mut pool = CodexActor::pre_start(vec![cred("a"), cred("b")]);
    CodexActor::dispatch(&mut pool).unwrap();
    let (_, directive) = forwarding(3).step(refused(429));
    CodexActor::handle(&mut pool, directive.give_back.unwrap().into_message());
    assert_eq!(CodexActor::log(&pool), (2, 0));
}

#[test]
fn server_errors_are_waited_out_with_doubling_delays() {
    let mut session = start(2);
    for want in [1000, 2000, 4000] {
        session = session.step(granted(cred("a"), false)).0;
        let (next, directive) = session.step(refused(503));
        assert!(directive.give_back.is_none());
        assert!(matches!(directive.action, ChatAction::Sleep(ms) if ms == want));
        let (next, directive) = next.step(ChatEvent::Slept);
        if want == 4000 {
            assert!(matches!(directive.action, ChatAction::Fail(ClewdrError::TooManyRetries)));
        } else {
            assert!(matches!(directive.action, ChatAction::RequestCredential));
        }
        session = next;
    }
    assert_eq!(backoff_millis(0), 1000);
    assert_eq!(backoff_millis(10), 1_024_000);
    assert_eq!(backoff_millis(54), 18_014_398_509_481_984_000);
}

#[test]
fn without_retries_there_is_one_attempt() {
    let (_, directive) = forwarding(0).step(refused(429));
    assert_eq!(reason(&directive), Some("Rate limited"));
    assert!(matches!(directive.action, ChatAction::Fail(ClewdrError::TooManyRetries)));
}

#[test]
fn other_errors_are_the_answer() {
    for code in [400, 403, 404, 499, 600] {
        let (_, directive) = forwarding(3).step(refused(code));
        match directive.action {
            ChatAction::Fail(ClewdrError::ClaudeHttpError { code: c, inner }) => {
                assert_eq!(c, code);
                assert_eq!(inner.message, "m");
            }
            other => panic!("{:?}", other),
        }
    }
    let (_, directive) =
        forwarding(3).step(ChatEvent::Forwarded(Err(ClewdrError::WreqError {
            msg: "Failed to send request to OpenAI",
            source: "s".to_string(),
        })));
    assert!(matches!(directive.action, ChatAction::Fail(ClewdrError::WreqError { .. })));
}

#[test]
fn requests_for_streams_are_recognised() {
    assert!(request_wants_stream(br#"{"model": "m", "stream": true}"#));
    assert!(!request_wants_stream(br#"{"stream": false}"#));
    assert!(!request_wants_stream(br#"{"stream": "true"}"#));
    assert!(!request_wants_stream(br#"{"inner": {"stream": true}}"#));
    assert!(!request_wants_stream(br#"[{"stream": true}]"#));
    assert!(!request_wants_stream(b"stream: true"));
}

#[test]
fn requests_are_forwarded_as_they_came() {
    let mut state = CodexState::new(BASE.to_string());
    let (_, request) = state.forward_request("tok", b"{}".to_vec()).unwrap();
    assert_eq!(request.method, Method::Post);
    assert_eq!(request.url, "https://chat.example/backend/codex/responses");
    assert_eq!(request.bearer.as_deref(), Some("tok"));
    assert!(matches!(&request.payload, Payload::Raw(b) if b == b"{}"));
    let names = |r: &codex_relay::wire::HttpRequest| {
        r.headers.iter().map(|f| format!("{}: {}", f.name, f.value)).collect::<Vec<String>>()
    };
    let want = [
        "content-type: application/json",
        "accept: text/event-stream",
        "OpenAI-Beta: responses=experimental",
        "chatgpt-account-id: a",
    ];
    assert_eq!(names(&request), want[..3]);
    state.request_credential(Ok(cred("a")), Ok(())).unwrap();
    assert_eq!(names(&state.forward_request("tok", Vec::new()).unwrap().1), want);
    assert!(CodexState::new("no url".to_string()).forward_request("t", Vec::new()).is_none());
}

#[test]
fn replies_are_judged_by_their_head() {
    let judge = CodexState::judge_reply;
    assert_eq!(judge(404, Some("text/event-stream"), true), Verdict::Refuse);
    assert_eq!(judge(200, Some("text/event-stream; charset=utf-8"), false), Verdict::Stream);
    assert_eq!(judge(200, None, true), Verdict::Stream);
    assert_eq!(judge(299, Some("application/json"), false), Verdict::PassOn);
    assert_eq!(judge(200, None, false), Verdict::PassOn);
    assert!(is_success(200) && is_success(299) && !is_success(300) && !is_success(199));
    assert!(is_server_error(500) && is_server_error(599));
    assert!(!is_server_error(499) && !is_server_error(600));
}

fn header(name: &str) -> Header {
    Header { name: name.to_string(), value: name.as_bytes().to_vec() }
}

#[test]
fn stale_headers_are_not_passed_on() {
    let headers = ["date", "content-length", "x", "transfer-encoding", "content-encoding", "x"];
    let kept = passthrough_headers(headers.iter().map(|n| header(n)).collect());
    let names: Vec<&str> = kept.iter().map(|h| h.name.as_str()).collect();
    assert_eq!(names, ["date", "x", "x"]);
    assert_eq!(kept[0].value, b"date");
}

fn sending(body: &[u8]) -> Forwarding {
    CodexState::new(BASE.to_string()).forward_request("tok", body.to_vec()).unwrap().0
}

fn head(status: u16, content_type: Option<&str>) -> ForwardEvent {
    ForwardEvent::Head {
        status,
        content_type: content_type.map(|t| t.to_string()),
        headers: vec![header("content-length"), header("etag")],
    }
}

#[test]
fn refusals_become_errors() {
    for (text, want) in [(Some("tea".to_string()), "tea"), (None, "")] {
        let (forwarding, action) =
            sending(br#"{"stream": true}"#).step(head(418, Some("text/event-stream")));
        assert!(matches!(action, ForwardAction::ReadText));
        match forwarding.step(ForwardEvent::Text(text)).1 {
            ForwardAction::Done(Err(ClewdrError::ClaudeHttpError { code, inner })) => {
                assert_eq!((code, inner.code), (418, Some(418)));
                assert_eq!((inner.message.as_str(), inner.kind.as_str()), (want, "codex_error"));
            }
            other => panic!("{:?}", other),
        }
    }
}

#[test]
fn other_replies_are_passed_on() {
    let (_, action) = sending(br#"{"stream": true}"#).step(head(200, None));
    assert!(matches!(action, ForwardAction::Done(Ok(Relayed::Stream))));
    let (_, action) = sending(b"{}").step(head(200, Some("text/event-stream")));
    assert!(matches!(action, ForwardAction::Done(Ok(Relayed::Stream))));
    let (forwarding, action) = sending(b"{}").step(head(201, Some("application/json")));
    assert!(matches!(action, ForwardAction::ReadBody));
    match forwarding.step(ForwardEvent::Body(Ok(b"abc".to_vec()))).1 {
        ForwardAction::Done(Ok(Relayed::Whole { status, headers, body })) => {
            assert_eq!(status, 201);
            assert_eq!(headers.len(), 1);
            assert_eq!(headers[0].name, "etag");
            assert_eq!(body, b"abc");
        }
        other => panic!("{:?}", other),
    }
}

#[test]
fn failures_of_the_client_are_named() {
    match sending(b"{}").step(ForwardEvent::Unsent { source: "s".to_string() }).1 {
        ForwardAction::Done(Err(ClewdrError::WreqError { msg, source })) => {
            assert_eq!((msg, source.as_str()), ("Failed to send request to OpenAI", "s"))
        }
        other => panic!("{:?}", other),
    }
    let (forwarding, _) = sending(b"{}").step(head(200, None));
    match forwarding.step(ForwardEvent::Body(Err("s".to_string()))).1 {
        ForwardAction::Done(Err(ClewdrError::WreqError { msg, source })) => {
            assert_eq!((msg, source.as_str()), ("Failed to read OpenAI response body", "s"))
        }
        other => panic!("{:?}", other),
    }
}

#[test]
fn the_models_url_always_names_a_client_version() {
    let url = |text: &str| ModelsUrl::Url(text.to_string());
    assert_eq!(
        models_url(BASE, ""),
        url("https://chat.example/backend/codex/models?client_version=1.0.0")
    );
    assert_eq!(
        models_url(BASE, "limit=5"),
        url("https://chat.example/backend/codex/models?limit=5&client_version=1.0.0")
    );
    assert_eq!(
        models_url(BASE, "a=b%20c&client_version=2"),
        url("https://chat.example/backend/codex/models?a=b%20c&client_version=2")
    );
    assert_eq!(
        models_url(BASE, "client%5Fversion=3"),
        url("https://chat.example/backend/codex/models?client%5Fversion=3")
    );
    assert_eq!(
        models_url(BASE, "a\t=\r\n1"),
        url("https://chat.example/backend/codex/models?a=1&client_version=1.0.0")
    );
    assert_eq!(
        models_url("https://h/x/#top", "q"),
        url("https://h/x/models?q&client_version=1.0.0")
    );
    assert_eq!(models_url("nothing", "a=b"), ModelsUrl::NoBase);
    let label: String =
        (0..1000u32).filter_map(|i| char::from_u32(0x4e00 + 20 * i)).collect();
    let written = responses_url(&format!("https://{}/", label)).unwrap();
    assert_eq!(responses_url(&written), None);
    assert_eq!(models_url(&format!("https://{}/", label), "a=b"), ModelsUrl::NoBase);
    assert_eq!(responses_url("https://h/a/b").as_deref(), Some("https://h/a/responses"));
    assert_eq!(responses_url("mailto:x"), None);
    assert_eq!(
        bootstrap_url("https://chat.example/").as_deref(),
        Some("https://chat.example/api/bootstrap")
    );
    assert!(names_client_version(&vec!["a".to_string(), "client_version".to_string()]));
    assert!(!names_client_version(&vec!["Client_Version".to_string()]));
}

fn asked(query: &str, stale: bool) -> (ModelsSession, ModelsDirective) {
    let (session, action) = CodexProvider::new(BASE.to_string()).fetch_models(query);
    assert!(matches!(action, ModelsAction::RequestCredential));
    session.step(ModelsEvent::Credential { granted: Ok(cred("a")), client: Ok(()), stale })
}

fn failure(action: ModelsAction) -> &'static str {
    match action {
        ModelsAction::Fail(ClewdrError::WreqError { msg, .. }) => msg,
        ModelsAction::Fail(ClewdrError::BadRequest { msg }) => msg,
        other => panic!("{:?}", other),
    }
}

#[test]
fn models_are_fetched() {
    let (session, directive) = asked("limit=1", true);
    assert!(matches!(directive.action, ModelsAction::Refresh(t) if t.refresh_token == "refresh-a"));
    let (session, directive) = session.step(ModelsEvent::Refreshed(Ok(token("new"))));
    let back = directive.give_back.unwrap();
    assert_eq!(back.credential.token.unwrap().access_token, "access-new");
    let request = match directive.action {
        ModelsAction::Send(request) => request,
        other => panic!("{:?}", other),
    };
    assert_eq!(request.method, Method::Get);
    assert_eq!(
        request.url,
        "https://chat.example/backend/codex/models?limit=1&client_version=1.0.0"
    );
    assert_eq!(request.bearer.as_deref(), Some("access-new"));
    let headers: Vec<String> =
        request.headers.iter().map(|f| format!("{}: {}", f.name, f.value)).collect();
    assert_eq!(headers, ["OpenAI-Beta: responses=experimental", "chatgpt-account-id: a"]);
    assert!(matches!(request.payload, Payload::Empty));
    let (session, directive) = session.step(ModelsEvent::Head {
        status: 503,
        headers: vec![header("etag"), header("content-encoding")],
    });
    let back = directive.give_back.unwrap();
    assert!(back.reason.is_none());
    assert_eq!(back.credential.account_id.as_deref(), Some("a"));
    assert!(matches!(directive.action, ModelsAction::Read));
    let (_, directive) = session.step(ModelsEvent::Body(Ok(b"list".to_vec())));
    assert!(directive.give_back.is_none());
    match directive.action {
        ModelsAction::Deliver(Relayed::Whole { status, headers, body }) => {
            assert_eq!(status, 503);
            assert_eq!(headers.len(), 1);
            assert_eq!(body, b"list");
        }
        other => panic!("{:?}", other),
    }
}

#[test]
fn fetching_models_can_fail() {
    let mut bare = cred("a");
    bare.token = None;
    let (session, _) = CodexProvider::new(BASE.to_string()).fetch_models("");
    let (_, directive) =
        session.step(ModelsEvent::Credential { granted: Ok(bare), client: Ok(()), stale: true });
    assert_eq!(
        failure(directive.action),
        "No Codex token available - login required via dashboard"
    );
    let error = ClewdrError::BadRequest { msg: "re-login" };
    let (_, directive) = asked("", true).0.step(ModelsEvent::Refreshed(Err(error)));
    assert_eq!(failure(directive.action), "re-login");
    let unsent = ModelsEvent::Unsent { source: "s".to_string() };
    let (_, directive) = asked("", false).0.step(unsent);
    assert!(directive.give_back.is_none());
    assert_eq!(failure(directive.action), "Failed to fetch models from OpenAI");
    let reading = asked("", false).0.step(ModelsEvent::Head { status: 200, headers: vec![] }).0;
    let (_, directive) = reading.step(ModelsEvent::Body(Err("s".to_string())));
    assert_eq!(failure(directive.action), "Failed to read models response");
    let (session, _) = CodexProvider::new("nothing".to_string()).fetch_models("");
    let (_, directive) = session.step(ModelsEvent::Credential {
        granted: Ok(cred("a")),
        client: Ok(()),
        stale: false,
    });
    assert!(matches!(directive.action, ModelsAction::NoBase));
}

#[test]
fn an_overlong_query_cannot_be_sent() {
    let long = "x".repeat(URL_LIMIT + 1);
    let (session, directive) = asked(&long, false);
    assert!(matches!(directive.action, ModelsAction::Overlong));
    let (_, directive) = session.step(ModelsEvent::Unsent { source: "uri too long".to_string() });
    assert_eq!(failure(directive.action), "Failed to fetch models from OpenAI");
}
