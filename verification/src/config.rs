//! The credentials that the relay holds for the Codex backend.
use vstd::prelude::*;

verus! {

/// The characters of an optional string.
pub open spec fn opt_text(text: Option<String>) -> Option<Seq<char>> {
    match text {
        Some(t) => Some(t@),
        None => None,
    }
}

/// The characters of an optional string slice.
pub open spec fn opt_str(text: Option<&str>) -> Option<Seq<char>> {
    match text {
        Some(t) => Some(t@),
        None => None,
    }
}

/// A moment in UTC, as seconds since the Unix epoch and nanoseconds into the
/// second.
#[derive(Clone, Copy, Debug, PartialEq, Eq, Structural)]
pub struct Timestamp {
    pub seconds: i64,
    pub nanos: u32,
}

/// The tokens of one login, and when they were last issued.
#[derive(Debug)]
pub struct CodexTokenInfo {
    pub access_token: String,
    pub refresh_token: String,
    pub id_token: Option<String>,
    pub last_refresh: Timestamp,
}

impl Clone for CodexTokenInfo {
    fn clone(&self) -> (copy: Self)
        ensures
            copy == *self,
    {
        CodexTokenInfo {
            access_token: self.access_token.clone(),
            refresh_token: self.refresh_token.clone(),
            id_token: clone_opt_string(&self.id_token),
            last_refresh: self.last_refresh,
        }
    }
}

/// One account of the pool.
///
/// Two credentials are equal when they name the same account: the same
/// account id and the same label. Tokens and reset times change over the life
/// of a credential and take no part in the comparison.
#[derive(Debug)]
pub struct CodexCredential {
    pub token: Option<CodexTokenInfo>,
    pub account_id: Option<String>,
    pub label: Option<String>,
    pub reset_time: Option<i64>,
}

impl CodexCredential {
    /// Both credentials name the same account.
    pub open spec fn same_account(self, other: CodexCredential) -> bool {
        &&& opt_text(self.account_id) == opt_text(other.account_id)
        &&& opt_text(self.label) == opt_text(other.label)
    }

    /// The same account, with another token.
    pub open spec fn with_token(self, token: CodexTokenInfo) -> CodexCredential {
        CodexCredential { token: Some(token), ..self }
    }
}

impl Clone for CodexCredential {
    fn clone(&self) -> (copy: Self)
        ensures
            copy == *self,
    {
        CodexCredential {
            token: match &self.token {
                Some(token) => Some(token.clone()),
                None => None,
            },
            account_id: clone_opt_string(&self.account_id),
            label: clone_opt_string(&self.label),
            reset_time: self.reset_time,
        }
    }
}

impl PartialEq for CodexCredential {
    fn eq(&self, other: &Self) -> (equal: bool) {
        opt_string_eq(&self.account_id, &other.account_id) && opt_string_eq(
            &self.label,
            &other.label,
        )
    }
}

impl Eq for CodexCredential {
}

impl vstd::std_specs::cmp::PartialEqSpecImpl for CodexCredential {
    open spec fn obeys_eq_spec() -> bool {
        true
    }

    open spec fn eq_spec(&self, other: &Self) -> bool {
        self.same_account(*other)
    }
}

pub(crate) fn clone_opt_string(text: &Option<String>) -> (copy: Option<String>)
    ensures
        copy == *text,
{
    match text {
        Some(t) => Some(t.clone()),
        None => None,
    }
}

/// Whether both are absent, or both hold the same characters.
fn opt_string_eq(a: &Option<String>, b: &Option<String>) -> (equal: bool)
    ensures
        equal == (opt_text(*a) == opt_text(*b)),
{
    match (a, b) {
        (Some(x), Some(y)) => *x == *y,
        (None, None) => true,
        _ => false,
    }
}

} // verus!
