use codex_relay::actor_handle::CodexActorHandle;
use codex_relay::codex_actor::{CodexActor, CodexActorMessage, CodexActorState, Reply};
use codex_relay::config::{CodexCredential, CodexTokenInfo, Timestamp};
use codex_relay::error::ClewdrError;

fn token(name: &str) -> CodexTokenInfo {
    CodexTokenInfo {
        access_token: format!("access-{}", name),
        refresh_token: format!("refresh-{}", name),
        id_token: None,
        last_refresh: Timestamp { seconds: 1_700_000_000, nanos: 0 },
    }
}

fn cred(account: &str) -> CodexCredential {
    CodexCredential {
        token: Some(token(account)),
        account_id: Some(account.to_string()),
        label: None,
        reset_time: None,
    }
}

fn pool(accounts: &[&str]) -> CodexActorState {
    CodexActor::pre_start(accounts.iter().map(|a| cred(a)).collect())
}

fn accounts(list: &[CodexCredential]) -> Vec<String> {
    list.iter().map(|c| c.account_id.clone().unwrap()).collect()
}

fn valid(state: &CodexActorState) -> Vec<String> {
    accounts(&CodexActor::report(state).valid)
}

#[test]
fn credentials_are_served_in_turn() {
    let mut state = pool(&["a", "b", "c"]);
    let mut served = Vec::new();
    for _ in 0..7 {
        served.push(CodexActor::dispatch(&mut state).unwrap().account_id.unwrap());
    }
    assert_eq!(served, ["a", "b", "c", "a", "b", "c", "a"]);
    assert_eq!(valid(&state), ["b", "c", "a"]);
}

#[test]
fn an_empty_pool_has_no_credential() {
    let mut state = pool(&[]);
    assert!(matches!(CodexActor::dispatch(&mut state), Err(ClewdrError::NoCookieAvailable)));
    assert_eq!(CodexActor::log(&state), (0, 0));
}

#[test]
fn a_returned_credential_replaces_its_account_in_place() {
    let mut state = pool(&["a", "b", "c"]);
    let mut back = cred("b");
    back.token = Some(token("new"));
    assert!(CodexActor::collect(&mut state, back, Some("Rate limited".to_string())));
    assert_eq!(valid(&state), ["a", "b", "c"]);
    let info = CodexActor::report(&state);
    assert_eq!(info.valid[1].token.as_ref().unwrap().access_token, "access-new");
    assert_eq!(info.valid[0].token.as_ref().unwrap().access_token, "access-a");
}

#[test]
fn an_unknown_credential_is_not_taken_back() {
    let mut state = pool(&["a"]);
    assert!(!CodexActor::collect(&mut state, cred("z"), None));
    assert_eq!(valid(&state), ["a"]);
}

#[test]
fn an_account_is_accepted_once() {
    let mut state = pool(&["a"]);
    assert!(CodexActor::accept(&mut state, cred("b")));
    assert!(!CodexActor::accept(&mut state, cred("a")));
    assert!(!CodexActor::accept(&mut state, cred("b")));
    assert_eq!(valid(&state), ["a", "b"]);
    assert_eq!(CodexActor::log(&state), (2, 0));
}

#[test]
fn an_exhausted_account_is_not_accepted_and_can_be_deleted() {
    let mut state = pool(&["a"]);
    state.exhausted.push(cred("x"));
    assert!(!CodexActor::accept(&mut state, cred("x")));
    assert_eq!(accounts(&CodexActor::save(&state)), ["a", "x"]);
    assert_eq!(CodexActor::log(&state), (1, 1));
    assert!(CodexActor::delete(&mut state, cred("x")).is_ok());
    assert_eq!(CodexActor::log(&state), (1, 0));
}

#[test]
fn deleting_removes_every_copy() {
    let mut state = pool(&["a", "b", "a", "c"]);
    assert!(CodexActor::delete(&mut state, cred("a")).is_ok());
    assert_eq!(valid(&state), ["b", "c"]);
}

#[test]
fn deleting_an_unknown_account_fails() {
    let mut state = pool(&["a", "b"]);
    match CodexActor::delete(&mut state, cred("z")) {
        Err(ClewdrError::UnexpectedNone { msg }) => {
            assert_eq!(msg, "Delete operation did not find the codex credential")
        }
        other => panic!("{:?}", other),
    }
    assert_eq!(valid(&state), ["a", "b"]);
}

#[test]
fn messages_are_answered_and_saved() {
    let mut state = pool(&["a"]);
    let outcome = CodexActor::handle(&mut state, CodexActorMessage::Submit(cred("b")));
    assert!(matches!(outcome.reply, Reply::Nothing));
    assert_eq!(accounts(&outcome.save.unwrap()), ["a", "b"]);

    let outcome = CodexActor::handle(&mut state, CodexActorMessage::Request);
    match outcome.reply {
        Reply::Credential(Ok(c)) => assert_eq!(c.account_id.as_deref(), Some("a")),
        other => panic!("{:?}", other),
    }
    assert!(outcome.save.is_none());

    let outcome = CodexActor::handle(&mut state, CodexActorMessage::GetStatus);
    match outcome.reply {
        Reply::Status(info) => assert_eq!(accounts(&info.valid), ["b", "a"]),
        other => panic!("{:?}", other),
    }
    assert!(outcome.save.is_none());

    let outcome = CodexActor::handle(&mut state, CodexActorMessage::Return(cred("a"), None));
    assert_eq!(accounts(&outcome.save.unwrap()), ["b", "a"]);

    let outcome = CodexActor::handle(&mut state, CodexActorMessage::Delete(cred("b")));
    assert!(matches!(outcome.reply, Reply::Deleted(Ok(()))));
    assert_eq!(accounts(&outcome.save.unwrap()), ["a"]);

    let outcome = CodexActor::handle(&mut state, CodexActorMessage::Delete(cred("b")));
    assert!(matches!(outcome.reply, Reply::Deleted(Err(ClewdrError::UnexpectedNone { .. }))));
    assert!(outcome.save.is_none());
}

#[test]
fn a_full_round_leaves_the_order() {
    let mut state = pool(&["a", "b", "c", "d"]);
    for _ in 0..4 {
        CodexActor::dispatch(&mut state).unwrap();
    }
    assert_eq!(valid(&state), ["a", "b", "c", "d"]);
}

#[test]
fn a_refreshed_credential_is_served_at_its_next_turn() {
    let mut state = pool(&["a", "b"]);
    let mut served = CodexActor::dispatch(&mut state).unwrap();
    served.token = Some(token("new"));
    CodexActor::collect(&mut state, served, None);
    CodexActor::dispatch(&mut state).unwrap();
    let again = CodexActor::dispatch(&mut state).unwrap();
    assert_eq!(again.account_id.as_deref(), Some("a"));
    assert_eq!(again.token.unwrap().access_token, "access-new");
}

#[test]
fn a_run_of_messages_keeps_the_pool_in_order() {
    let mut state = pool(&["a", "b"]);
    let mut kept = accounts(&CodexActor::save(&state));
    for message in [
        CodexActorMessage::Request,
        CodexActorMessage::Submit(cred("c")),
        CodexActorMessage::Submit(cred("a")),
        CodexActorMessage::Return(cred("b"), Some("Rate limited".to_string())),
        CodexActorMessage::Return(cred("z"), None),
        CodexActorMessage::GetStatus,
        CodexActorMessage::Delete(cred("a")),
        CodexActorMessage::Delete(cred("a")),
        CodexActorMessage::Submit(cred("a")),
        CodexActorMessage::Request,
    ] {
        if let Some(saved) = CodexActor::handle(&mut state, message).save {
            kept = accounts(&saved);
        }
        let mut now = accounts(&CodexActor::save(&state));
        now.sort();
        let mut written = kept.clone();
        written.sort();
        assert_eq!(now, written);
        now.dedup();
        assert_eq!(now.len(), written.len());
        assert_eq!(CodexActor::log(&state).1, 0);
    }
    assert_eq!(valid(&state), ["c", "a", "b"]);
}

#[test]
fn a_restart_restores_the_pool() {
    let mut state = pool(&["a", "b", "c"]);
    CodexActor::dispatch(&mut state).unwrap();
    let again = CodexActor::pre_start(CodexActor::post_stop(&state));
    assert_eq!(valid(&again), ["b", "c", "a"]);
    assert_eq!(CodexActor::log(&again), (3, 0));
}

#[test]
fn accounts_are_compared_by_id_and_label() {
    let mut other = cred("a");
    other.token = None;
    other.reset_time = Some(5);
    assert!(cred("a") == other);
    other.label = Some("someone@example.com".to_string());
    assert!(cred("a") != other);
    assert!(cred("a") != cred("b"));
    assert_eq!(cred("a").clone().token.unwrap().refresh_token, "refresh-a");
}

#[test]
fn an_unreachable_pool_is_named_with_the_operation() {
    fn detail<T>(result: Result<T, ClewdrError>) -> String {
        match result {
            Err(ClewdrError::RactorError { detail }) => detail,
            _ => panic!("no error"),
        }
    }
    let why = || Err("gone".to_string());
    assert_eq!(
        detail(CodexActorHandle::request(Err("gone".to_string()))),
        "Failed to communicate with CodexActor for request operation: gone"
    );
    assert_eq!(
        detail(CodexActorHandle::return_credential(why())),
        "Failed to communicate with CodexActor for return operation: gone"
    );
    assert_eq!(
        detail(CodexActorHandle::submit(why())),
        "Failed to communicate with CodexActor for submit operation: gone"
    );
    assert_eq!(
        detail(CodexActorHandle::get_status(Err("gone".to_string()))),
        "Failed to communicate with CodexActor for get status operation: gone"
    );
    assert_eq!(
        detail(CodexActorHandle::delete_credential(Err("gone".to_string()))),
        "Failed to communicate with CodexActor for delete operation: gone"
    );
    assert!(matches!(
        CodexActorHandle::request(Ok(Err(ClewdrError::NoCookieAvailable))),
        Err(ClewdrError::NoCookieAvailable)
    ));
    assert!(CodexActorHandle::delete_credential(Ok(Ok(()))).is_ok());
}
