//! The administration endpoints: logging in by device code, and listing and
//! deleting credentials.
//!
//! An endpoint first admits its caller, or does not; only then is there work
//! to do outside, whose result it turns into a reply.
use crate::codex_actor::{CodexActorMessage, CodexCredentialInfo, Pool};
use crate::config::{clone_opt_string, opt_text, CodexCredential, CodexTokenInfo};
use crate::error::ApiError;
use crate::exchange::DeviceCodeResponse;
use crate::jwt::{
    claim_text, claims, extract_jwt_claim, extract_nested_jwt_claim, nested_claim_text,
};
use vstd::prelude::*;

verus! {

/// The reply to the start of a login.
#[derive(Debug)]
pub struct DeviceCodeLoginResponse {
    pub verification_url: String,
    pub user_code: String,
    pub device_auth_id: String,
    pub interval: u64,
}

/// A request to poll for the completion of a login.
#[derive(Debug)]
pub struct DeviceCodePollRequest {
    pub device_auth_id: String,
    pub user_code: String,
}

/// The reply to a poll.
#[derive(Debug)]
pub struct PollResponse {
    pub status: String,
    pub label: Option<String>,
}

/// An internal error with a message of two parts.
pub open spec fn internal(error: ApiError, what: Seq<char>, why: Seq<char>) -> bool {
    error matches ApiError::Internal(message) && message@ == what + why
}

fn internal_error(what: &str, why: &str) -> (error: ApiError)
    ensures
        internal(error, what@, why@),
{
    ApiError::Internal(what.to_owned().concat(why))
}

/// What to do for an endpoint whose work is a single step.
#[derive(Debug)]
pub enum CallAction<T> {
    /// Ask the backend for a device code.
    RequestDeviceCode,
    /// Send this message to the pool.
    Ask(CodexActorMessage),
    Reply(Result<T, ApiError>),
}

impl<T> CallAction<T> {
    /// What becomes of the pool by this action alone.
    pub open spec fn pool_after(self, pool: Pool) -> Pool {
        match self {
            CallAction::Ask(message) => pool.after(message),
            _ => pool,
        }
    }

    /// A caller who is not the administrator: nothing is done for them.
    pub open spec fn turns_away(self) -> bool {
        self == CallAction::Reply(Err::<T, ApiError>(ApiError::Unauthorized))
    }
}

/// A request to start a login.
#[derive(Debug)]
pub struct LoginStart {
    waiting: bool,
}

impl LoginStart {
    /// The device code has been asked for.
    pub closed spec fn waiting(self) -> bool {
        self.waiting
    }

    /// The reply, from the device code or from the words of the error that came
    /// instead.
    pub fn step(self, code: Result<DeviceCodeResponse, String>) -> (reply: Result<
        DeviceCodeLoginResponse,
        ApiError,
    >)
        requires
            self.waiting(),
        ensures
            match code {
                Ok(dc) => reply == Ok::<_, ApiError>(
                    DeviceCodeLoginResponse {
                        verification_url: dc.verification_url,
                        user_code: dc.user_code,
                        device_auth_id: dc.device_auth_id,
                        interval: dc.interval,
                    },
                ),
                Err(why) => reply matches Err(e) && internal(
                    e,
                    "Failed to start device code login: "@,
                    why@,
                ),
            },
    {
        match code {
            Ok(dc) => Ok(
                DeviceCodeLoginResponse {
                    verification_url: dc.verification_url,
                    user_code: dc.user_code,
                    device_auth_id: dc.device_auth_id,
                    interval: dc.interval,
                },
            ),
            Err(why) => Err(internal_error("Failed to start device code login: ", why.as_str())),
        }
    }
}

/// Starts a login. Only the administrator causes a device code to be asked for;
/// anyone else is told so, and that is all.
pub fn api_codex_login_start(authorized: bool) -> (start: (
    LoginStart,
    CallAction<DeviceCodeLoginResponse>,
))
    ensures
        start.0.waiting() == authorized,
        if authorized {
            start.1 is RequestDeviceCode
        } else {
            start.1.turns_away()
        },
{
    if authorized {
        (LoginStart { waiting: true }, CallAction::RequestDeviceCode)
    } else {
        (LoginStart { waiting: false }, CallAction::Reply(Err(ApiError::Unauthorized)))
    }
}

/// A request to list the credentials.
#[derive(Debug)]
pub struct CredentialListing {
    waiting: bool,
}

impl CredentialListing {
    /// The pool has been asked.
    pub closed spec fn waiting(self) -> bool {
        self.waiting
    }

    /// The reply, from the pool's report or from the words of the error that
    /// came instead.
    pub fn step(self, status: Result<CodexCredentialInfo, String>) -> (reply: Result<
        CodexCredentialInfo,
        ApiError,
    >)
        requires
            self.waiting(),
        ensures
            match status {
                Ok(info) => reply == Ok::<_, ApiError>(info),
                Err(why) => reply matches Err(e) && internal(
                    e,
                    "Failed to get codex credentials: "@,
                    why@,
                ),
            },
    {
        match status {
            Ok(info) => Ok(info),
            Err(why) => Err(internal_error("Failed to get codex credentials: ", why.as_str())),
        }
    }
}

/// Lists the credentials, for the administrator only.
pub fn api_get_codex_credentials(authorized: bool) -> (start: (
    CredentialListing,
    CallAction<CodexCredentialInfo>,
))
    ensures
        start.0.waiting() == authorized,
        if authorized {
            start.1 == CallAction::<CodexCredentialInfo>::Ask(CodexActorMessage::GetStatus)
        } else {
            start.1.turns_away()
        },
{
    if authorized {
        (CredentialListing { waiting: true }, CallAction::Ask(CodexActorMessage::GetStatus))
    } else {
        (CredentialListing { waiting: false }, CallAction::Reply(Err(ApiError::Unauthorized)))
    }
}

/// A request to delete a credential.
#[derive(Debug)]
pub struct CredentialDeletion {
    waiting: bool,
}

impl CredentialDeletion {
    /// The pool has been asked.
    pub closed spec fn waiting(self) -> bool {
        self.waiting
    }

    /// The status of the reply, from the pool's result or from the words of the
    /// error that came instead: no content.
    pub fn step(self, deleted: Result<(), String>) -> (reply: Result<u16, ApiError>)
        requires
            self.waiting(),
        ensures
            match deleted {
                Ok(_) => reply == Ok::<u16, ApiError>(204),
                Err(why) => reply matches Err(e) && internal(
                    e,
                    "Failed to delete credential: "@,
                    why@,
                ),
            },
    {
        match deleted {
            Ok(_) => Ok(204),
            Err(why) => Err(internal_error("Failed to delete credential: ", why.as_str())),
        }
    }
}

/// Deletes a credential. Only the administrator's request reaches the pool;
/// anyone else is told so, and that is all.
pub fn api_delete_codex_credential(authorized: bool, cred: CodexCredential) -> (start: (
    CredentialDeletion,
    CallAction<u16>,
))
    ensures
        start.0.waiting() == authorized,
        if authorized {
            start.1 == CallAction::<u16>::Ask(CodexActorMessage::Delete(cred))
        } else {
            start.1.turns_away()
        },
{
    if authorized {
        (CredentialDeletion { waiting: true }, CallAction::Ask(CodexActorMessage::Delete(cred)))
    } else {
        (CredentialDeletion { waiting: false }, CallAction::Reply(Err(ApiError::Unauthorized)))
    }
}

/// A caller who is turned away leaves the pool as it is, and no device code is
/// asked for.
pub proof fn strangers_change_nothing<T>(action: CallAction<T>, pool: Pool)
    requires
        action.turns_away(),
    ensures
        action.pool_after(pool) == pool,
        !(action is RequestDeviceCode),
        action is Reply,
{
}

/// The label of a login: the e-mail address that its id token claims.
pub open spec fn login_label(token: CodexTokenInfo) -> Option<Seq<char>> {
    match token.id_token {
        Some(id_token) => match claims(id_token@) {
            Some(found) => claim_text(found, "email"@),
            None => None,
        },
        None => None,
    }
}

/// The account of a login, as its access token claims it.
pub open spec fn login_account(token: CodexTokenInfo) -> Option<Seq<char>> {
    match claims(token.access_token@) {
        Some(found) => nested_claim_text(
            found,
            "https://api.openai.com/auth"@,
            "chatgpt_account_id"@,
        ),
        None => None,
    }
}

/// The credential that a login with these tokens adds to the pool.
pub open spec fn logged_in(credential: CodexCredential, token: CodexTokenInfo) -> bool {
    &&& credential.token == Some(token)
    &&& opt_text(credential.label) == login_label(token)
    &&& opt_text(credential.account_id) == login_account(token)
    &&& credential.reset_time is None
}

/// The credential of a login.
pub fn login_credential(token: CodexTokenInfo) -> (credential: CodexCredential)
    ensures
        logged_in(credential, token),
{
    let label = match &token.id_token {
        Some(id_token) => extract_jwt_claim(id_token.as_str(), "email"),
        None => None,
    };
    let account_id = extract_nested_jwt_claim(
        token.access_token.as_str(),
        "https://api.openai.com/auth",
        "chatgpt_account_id",
    );
    CodexCredential { token: Some(token), account_id, label, reset_time: None }
}

/// What came of the work outside.
#[derive(Debug)]
pub enum LoginEvent {
    /// The poll was judged: authorization code, verifier and challenge;
    /// nothing yet; or the words of the error that ends the login.
    Polled(Result<Option<(String, Option<String>, Option<String>)>, String>),
    /// The tokens for the code, or the words of the error that came instead.
    Exchanged(Result<CodexTokenInfo, String>),
    /// The pool took the credential, or could not be reached.
    Submitted(Result<(), String>),
}

/// What to do next in a poll.
#[derive(Debug)]
pub enum LoginAction {
    /// Poll once for the authorization of this code.
    Poll(DeviceCodePollRequest),
    /// Trade this code for tokens, with its verifier where there is one.
    Exchange { authorization_code: String, code_verifier: Option<String> },
    /// Add this credential to the pool.
    Submit(CodexCredential),
    Reply(Result<PollResponse, ApiError>),
}

impl LoginAction {
    /// The event is one that this work ends with.
    pub open spec fn answered_by(self, event: LoginEvent) -> bool {
        match self {
            LoginAction::Poll(_) => event is Polled,
            LoginAction::Exchange { .. } => event is Exchanged,
            LoginAction::Submit(_) => event is Submitted,
            LoginAction::Reply(_) => false,
        }
    }
}

/// What a poll waits for.
#[derive(Debug)]
pub enum LoginPhase {
    Polling,
    Exchanging,
    /// The pool, which is to take a credential with this label.
    Submitting(Option<String>),
    Over,
}

/// One poll for the completion of a login, by an administrator.
#[derive(Debug)]
pub struct LoginPoll {
    phase: LoginPhase,
}

/// A reply without an error.
pub open spec fn poll_reply(
    action: LoginAction,
    status: Seq<char>,
    label: Option<Seq<char>>,
) -> bool {
    action matches LoginAction::Reply(Ok(response)) && response.status@ == status && opt_text(
        response.label,
    ) == label
}

impl LoginPoll {
    pub closed spec fn phase(self) -> LoginPhase {
        self.phase
    }

    /// The event is one that the poll waits for.
    pub open spec fn accepts(self, event: LoginEvent) -> bool {
        match event {
            LoginEvent::Polled(_) => self.phase() is Polling,
            LoginEvent::Exchanged(_) => self.phase() is Exchanging,
            LoginEvent::Submitted(_) => self.phase() is Submitting,
        }
    }

    /// What an event leads to.
    pub open spec fn leads_to(self, event: LoginEvent, then: LoginPoll, action: LoginAction) -> bool {
        match event {
            LoginEvent::Polled(Ok(Some((code, verifier, challenge)))) => {
                &&& action == (LoginAction::Exchange {
                    authorization_code: code,
                    code_verifier: verifier,
                })
                &&& then.phase() is Exchanging
            },
            LoginEvent::Polled(Ok(None)) => {
                &&& poll_reply(action, "pending"@, None)
                &&& then.phase() is Over
            },
            LoginEvent::Polled(Err(why)) => {
                &&& action == LoginAction::Reply(
                    Err::<PollResponse, ApiError>(ApiError::BadRequest(why)),
                )
                &&& then.phase() is Over
            },
            LoginEvent::Exchanged(Ok(token)) => {
                &&& action matches LoginAction::Submit(credential) && logged_in(credential, token)
                &&& then.phase() matches LoginPhase::Submitting(label) && opt_text(label)
                    == login_label(token)
            },
            LoginEvent::Exchanged(Err(why)) => {
                &&& action matches LoginAction::Reply(Err(e)) && internal(
                    e,
                    "Token exchange failed: "@,
                    why@,
                )
                &&& then.phase() is Over
            },
            LoginEvent::Submitted(Ok(_)) => {
                &&& poll_reply(action, "complete"@, opt_text(self.phase()->Submitting_0))
                &&& then.phase() is Over
            },
            LoginEvent::Submitted(Err(_)) => {
                &&& action matches LoginAction::Reply(Err(ApiError::Internal(message)))
                    && message@ == "Failed to save credential"@
                &&& then.phase() is Over
            },
        }
    }

    /// Decides what an event leads to.
    pub fn step(self, event: LoginEvent) -> (next: (LoginPoll, LoginAction))
        requires
            self.accepts(event),
        ensures
            self.leads_to(event, next.0, next.1),
            forall|answer: LoginEvent| #[trigger]
                next.1.answered_by(answer) ==> next.0.accepts(answer),
    {
        match event {
            LoginEvent::Polled(result) => match result {
                Ok(Some((authorization_code, code_verifier, _))) => (
                    LoginPoll { phase: LoginPhase::Exchanging },
                    LoginAction::Exchange { authorization_code, code_verifier },
                ),
                Ok(None) => Self::over(
                    Ok(PollResponse { status: "pending".to_owned(), label: None }),
                ),
                Err(why) => Self::over(Err(ApiError::BadRequest(why))),
            },
            LoginEvent::Exchanged(result) => match result {
                Ok(token) => {
                    let credential = login_credential(token);
                    let label = clone_opt_string(&credential.label);
                    (
                        LoginPoll { phase: LoginPhase::Submitting(label) },
                        LoginAction::Submit(credential),
                    )
                },
                Err(why) => Self::over(
                    Err(internal_error("Token exchange failed: ", why.as_str())),
                ),
            },
            LoginEvent::Submitted(result) => match result {
                Ok(_) => match self.phase {
                    LoginPhase::Submitting(label) => Self::over(
                        Ok(PollResponse { status: "complete".to_owned(), label }),
                    ),
                    _ => Self::over(Err(ApiError::Internal("Failed to save credential".to_owned()))),
                },
                Err(_) => Self::over(
                    Err(ApiError::Internal("Failed to save credential".to_owned())),
                ),
            },
        }
    }

    fn over(reply: Result<PollResponse, ApiError>) -> (next: (LoginPoll, LoginAction))
        ensures
            next.0.phase() is Over,
            next.1 == LoginAction::Reply(reply),
    {
        (LoginPoll { phase: LoginPhase::Over }, LoginAction::Reply(reply))
    }
}

/// Starts a poll. A caller who is not admitted is told so, and nothing is
/// asked of the backend.
pub fn api_codex_login_poll(authorized: bool, request: DeviceCodePollRequest) -> (start: (
    LoginPoll,
    LoginAction,
))
    ensures
        if authorized {
            start.0.phase() is Polling && start.1 == LoginAction::Poll(request)
        } else {
            start.0.phase() is Over && start.1 == LoginAction::Reply(
                Err::<PollResponse, ApiError>(ApiError::Unauthorized),
            )
        },
        forall|answer: LoginEvent| #[trigger]
            start.1.answered_by(answer) ==> start.0.accepts(answer),
{
    if authorized {
        (LoginPoll { phase: LoginPhase::Polling }, LoginAction::Poll(request))
    } else {
        (
            LoginPoll { phase: LoginPhase::Over },
            LoginAction::Reply(Err(ApiError::Unauthorized)),
        )
    }
}

/// A poll replies that a login is complete only after the pool took its
/// credential.
pub proof fn completion_follows_submission(
    poll: LoginPoll,
    event: LoginEvent,
    then: LoginPoll,
    action: LoginAction,
)
    requires
        poll.accepts(event),
        poll.leads_to(event, then, action),
        action matches LoginAction::Reply(Ok(response)) && response.status@ == "complete"@,
    ensures
        event matches LoginEvent::Submitted(Ok(_)),
{
    reveal_strlit("complete");
    reveal_strlit("pending");
    assert("complete"@.len() != "pending"@.len());
}

} // verus!
