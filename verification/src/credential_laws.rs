//! What credentials and the state of a request keep, field by field.
use crate::codex_actor::CodexActorMessage;
use crate::codex_state::{CodexState, CodexTokenStatus, GiveBack};
use crate::config::{opt_str, opt_text, CodexCredential, CodexTokenInfo};
use crate::error::ClewdrError;
use vstd::prelude::*;

verus! {

/// The text of an optional string is that of the string, where there is one.
pub proof fn optional_texts(text: String, slice: &str)
    ensures
        opt_text(Some(text)) == Some(text@),
        opt_text(None) == None::<Seq<char>>,
        opt_str(Some(slice)) == Some(slice@),
        opt_str(None) == None::<Seq<char>>,
{
}

/// Two credentials are of one account exactly where the account ids are both
/// absent or read the same, and the labels too.
pub proof fn accounts_go_by_id_and_label(a: CodexCredential, b: CodexCredential)
    ensures
        a.same_account(b) <==> {
            &&& match (a.account_id, b.account_id) {
                (Some(x), Some(y)) => x@ == y@,
                (None, None) => true,
                _ => false,
            }
            &&& match (a.label, b.label) {
                (Some(x), Some(y)) => x@ == y@,
                (None, None) => true,
                _ => false,
            }
        },
{
}

/// Being of one account is an equivalence, on which neither the token nor the
/// reset time has any bearing.
pub proof fn accounts_are_classes(
    a: CodexCredential,
    b: CodexCredential,
    c: CodexCredential,
    token: Option<CodexTokenInfo>,
    reset_time: Option<i64>,
)
    ensures
        a.same_account(a),
        a.same_account(b) ==> b.same_account(a),
        a.same_account(b) && b.same_account(c) ==> a.same_account(c),
        a.same_account(CodexCredential { token, reset_time, ..a }),
{
}

/// `==` on credentials tells whether they are of one account.
pub proof fn equality_goes_by_account(a: CodexCredential, b: CodexCredential)
    ensures
        vstd::std_specs::cmp::PartialEqSpec::eq_spec(&a, &b) <==> a.same_account(b),
{
}

/// A copy of a credential or of a token is the same in every field.
pub proof fn copies_are_the_same(
    credential: CodexCredential,
    token: CodexTokenInfo,
    copy: CodexCredential,
    token_copy: CodexTokenInfo,
)
    requires
        call_ensures(CodexCredential::clone, (&credential,), copy),
        call_ensures(CodexTokenInfo::clone, (&token,), token_copy),
    ensures
        copy == credential,
        token_copy == token,
{
}

/// A new token takes the place of the old one whole, and nothing else of the
/// credential changes.
pub proof fn a_new_token_is_taken_whole(credential: CodexCredential, token: CodexTokenInfo)
    ensures
        ({
            let made = credential.with_token(token);
            &&& made.token matches Some(now) && {
                &&& now.access_token == token.access_token
                &&& now.refresh_token == token.refresh_token
                &&& now.id_token == token.id_token
                &&& now.last_refresh == token.last_refresh
            }
            &&& made.account_id == credential.account_id
            &&& made.label == credential.label
            &&& made.reset_time == credential.reset_time
        }),
{
}

/// The same of the credential that a request has at hand. A request without a
/// credential stays as it is, and the endpoint and the stream flag do so in any
/// case.
pub proof fn a_request_takes_a_new_token_whole(state: CodexState, token: CodexTokenInfo)
    ensures
        state.with_token(token).endpoint == state.endpoint,
        state.with_token(token).stream == state.stream,
        match state.credential {
            Some(credential) => state.with_token(token).credential matches Some(made) && {
                &&& made.token == Some(token)
                &&& made.account_id == credential.account_id
                &&& made.label == credential.label
                &&& made.reset_time == credential.reset_time
            },
            None => state.with_token(token).credential is None,
        },
{
}

/// The token at hand is that of the credential at hand.
pub proof fn the_token_at_hand(state: CodexState)
    ensures
        match state.credential {
            Some(credential) => state.token() == credential.token,
            None => state.token() is None,
        },
{
}

/// A token is missing, stale or valid: missing where there is no credential or
/// it holds none, and otherwise as the clock says.
pub proof fn tokens_are_judged(state: CodexState, stale: bool, status: CodexTokenStatus)
    requires
        call_ensures(CodexState::check_token, (&state, stale), status),
    ensures
        (state.credential is None || state.credential->0.token is None) <==> status is Missing,
        status is Stale ==> stale,
        status is Valid ==> !stale,
{
}

/// A new request has no credential, is for the given endpoint, and streams.
pub proof fn requests_start_empty(endpoint: String, state: CodexState)
    requires
        call_ensures(CodexState::new, (endpoint,), state),
    ensures
        state.credential is None,
        state.endpoint == endpoint,
        state.stream,
{
}

/// A request takes the credential that it is granted as it is, even where no
/// client could be built for it; where none is granted it keeps what it had.
pub proof fn granted_credentials_are_taken_as_they_are()
    ensures
        forall|
            state: &mut CodexState,
            granted: Result<CodexCredential, ClewdrError>,
            client: Result<(), String>,
            result: Result<CodexCredential, ClewdrError>,
        | #[trigger]
            call_ensures(CodexState::request_credential, (state, granted, client), result) ==> {
                &&& final(state).endpoint == state.endpoint
                &&& final(state).stream == state.stream
                &&& match granted {
                    Ok(credential) => {
                        &&& final(state).credential == Some(credential)
                        &&& match client {
                            Ok(_) => result matches Ok(got) && got == credential,
                            Err(why) => result matches Err(ClewdrError::WreqError { msg, source })
                                && msg == "Failed to build codex client with new credential"
                                && source == why,
                        }
                    },
                    Err(e) => {
                        &&& final(state).credential == state.credential
                        &&& result matches Err(got) && got == e
                    },
                }
            },
{
}

/// What goes back to the pool is the credential at hand as it is, with the
/// reason that was given; nothing goes back where there is none.
pub proof fn credentials_go_back_as_they_are(
    state: CodexState,
    reason: Option<&'static str>,
    back: Option<GiveBack>,
)
    requires
        call_ensures(CodexState::return_credential, (&state, reason), back),
    ensures
        match state.credential {
            Some(credential) => back matches Some(b) && b.credential == credential && b.reason
                == reason,
            None => back is None,
        },
        state.given_back(reason) == back,
{
}

/// The message that takes a credential back carries it and its reason.
pub proof fn give_backs_become_returns(back: GiveBack, message: CodexActorMessage)
    requires
        call_ensures(GiveBack::into_message, (back,), message),
    ensures
        message matches CodexActorMessage::Return(credential, reason) && {
            &&& credential == back.credential
            &&& match back.reason {
                Some(why) => reason matches Some(text) && text@ == why@,
                None => reason is None,
            }
        },
{
}

} // verus!
