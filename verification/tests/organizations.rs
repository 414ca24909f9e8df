use codex_relay::error::{ClewdrError, Reason};
use codex_relay::json::parse;
use codex_relay::organization::{
    has_subscription, org_priority, organizations, rank, read_account, ClaudeCodeState,
    Organization,
};

fn caps(list: &[&str]) -> Vec<String> {
    list.iter().map(|s| s.to_string()).collect()
}

#[test]
fn subscriptions_are_recognised() {
    for list in [["claude_pro"], ["claude_max"], ["enterprise"], ["raven"], ["xmaxx"]] {
        assert!(has_subscription(&caps(&list)));
    }
    assert!(has_subscription(&caps(&["chat", "pro"])));
    assert!(!has_subscription(&caps(&["chat"])));
    assert!(!has_subscription(&caps(&["PRO", "p", "r", "o"])));
    assert!(!has_subscription(&[]));
}

#[test]
fn personal_subscriptions_come_first() {
    assert_eq!(org_priority(&caps(&["chat", "claude_max"])), 0);
    assert_eq!(org_priority(&caps(&["claude_pro", "claude_max"])), 0);
    assert_eq!(org_priority(&caps(&["claude_pro", "raven"])), 1);
    assert_eq!(org_priority(&caps(&["raven"])), 2);
    assert_eq!(org_priority(&caps(&["enterprise"])), 2);
    assert_eq!(org_priority(&caps(&["chat"])), 3);
    assert_eq!(org_priority(&[]), 3);
}

#[test]
fn ranking_is_stable() {
    let org = |uuid: &str, list: &[&str]| Organization {
        uuid: uuid.to_string(),
        capabilities: caps(list),
    };
    let sorted = rank(vec![
        org("free1", &["chat"]),
        org("pro1", &["pro"]),
        org("team1", &["raven"]),
        org("max1", &["max"]),
        org("pro2", &["pro"]),
        org("max2", &["max"]),
        org("free2", &[]),
        org("team2", &["enterprise"]),
    ]);
    let uuids: Vec<&str> = sorted.iter().map(|o| o.uuid.as_str()).collect();
    assert_eq!(uuids, ["max1", "max2", "pro1", "pro2", "team1", "team2", "free1", "free2"]);
}

const ACCOUNT: &str = r#"{"account": {
    "email_address": "a@b.c",
    "memberships": [
        {"organization": {"uuid": "team", "capabilities": ["chat", "raven"]}},
        {"organization": {"uuid": "silent", "capabilities": ["claude_max"]}},
        {"organization": {"uuid": 7, "capabilities": ["chat", "claude_max"]}},
        {"organization": {"capabilities": ["chat"]}},
        {"organization": null},
        {"organization": {"uuid": "none"}},
        "noise",
        {"organization": {"uuid": "pro", "capabilities": [1, "claude_pro", null, "chat"]}},
        {"organization": {"uuid": "free", "capabilities": ["chat"]}},
        {"organization": {"uuid": "max", "capabilities": ["claude_max", "chat"]}}
    ]}}"#;

#[test]
fn organizations_are_read_and_ordered() {
    let report = ClaudeCodeState::get_organizations(ACCOUNT.as_bytes()).unwrap();
    assert_eq!(report.uuids, ["max", "pro", "team", "free"]);
    assert_eq!(report.email, "a@b.c");
    assert_eq!(
        report.listing,
        "max [claude_max,chat], pro [claude_pro,chat], team [chat,raven], free [chat]"
    );
    let list = organizations(&parse(ACCOUNT.as_bytes()).unwrap()).unwrap();
    assert!(list.iter().all(|o| o.capabilities.iter().any(|c| c == "chat")));
    assert!(has_subscription(&list[0].capabilities));
}

#[test]
fn accounts_without_use_are_refused() {
    let reason = |text: &str| match ClaudeCodeState::get_organizations(text.as_bytes()) {
        Err(ClewdrError::InvalidCookie { reason }) => reason,
        other => panic!("{:?}", other),
    };
    assert_eq!(reason("{}"), Reason::Null);
    assert_eq!(reason("[]"), Reason::Null);
    assert_eq!(reason(r#"{"account": null}"#), Reason::Null);
    assert_eq!(reason(r#"{"account": {"memberships": {}}}"#), Reason::Null);
    assert_eq!(reason(r#"{"account": {"memberships": []}}"#), Reason::Null);
    assert_eq!(
        reason(r#"{"account": {"memberships": [{"organization": {"uuid": "u", "capabilities": ["pro"]}}]}}"#),
        Reason::Null
    );
    assert_eq!(
        reason(r#"{"account": {"memberships": [{"organization": {"uuid": "u", "capabilities": ["chat"]}}]}}"#),
        Reason::Free
    );
}

#[test]
fn a_missing_address_is_empty() {
    let text = r#"{"account": {"memberships": [{"organization": {"uuid": "u", "capabilities": ["chat", "max"]}}]}}"#;
    assert_eq!(ClaudeCodeState::get_organizations(text.as_bytes()).unwrap().email, "");
}

#[test]
fn a_bootstrap_has_to_be_json() {
    match ClaudeCodeState::get_organizations(b"<html>") {
        Err(ClewdrError::WreqError { msg, source }) => {
            assert_eq!(msg, "Failed to parse bootstrap response");
            let want = serde_json::from_slice::<serde_json::Value>(b"<html>").unwrap_err();
            assert_eq!(source, want.to_string());
        }
        other => panic!("{:?}", other),
    }
    match read_account(Err("why".to_string())) {
        Err(ClewdrError::WreqError { source, .. }) => assert_eq!(source, "why"),
        other => panic!("{:?}", other),
    }
}
