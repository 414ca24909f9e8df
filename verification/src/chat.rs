//! Proxying one request to the Responses API: the attempts that are made.
//!
//! An attempt alternates between work outside (asking the pool, refreshing a
//! token, sending the request, waiting) and decisions. A [`ChatSession`] makes
//! the decisions: it is told what came of the work, and says what is next.
use crate::codex_state::{CodexState, CodexTokenStatus, GiveBack};
use crate::config::{CodexCredential, CodexTokenInfo};
use crate::error::ClewdrError;
use crate::wire::{is_server_error, server_error};
use vstd::arithmetic::power2::pow2;
use vstd::prelude::*;

verus! {

/// What came of the work outside.
#[derive(Debug)]
pub enum ChatEvent {
    /// The pool answered. `client` says whether an HTTP client could be built,
    /// and `stale` whether the token of the credential, if it has one, has to
    /// be refreshed.
    Credential {
        granted: Result<CodexCredential, ClewdrError>,
        client: Result<(), String>,
        stale: bool,
    },
    /// A token was refreshed, or could not be.
    Refreshed(Result<CodexTokenInfo, ClewdrError>),
    /// The request was answered, or failed. The host keeps the response.
    Forwarded(Result<(), ClewdrError>),
    /// The wait is over.
    Slept,
}

/// The work to be done next.
#[derive(Debug)]
pub enum ChatAction {
    RequestCredential,
    /// Refresh this token.
    Refresh(CodexTokenInfo),
    /// Send the request with this access token.
    Forward(String),
    /// Wait for so many milliseconds.
    Sleep(u64),
    /// Deliver the response at hand.
    Deliver,
    Fail(ClewdrError),
}

impl ChatAction {
    /// The event is one that this work ends with.
    pub open spec fn answered_by(self, event: ChatEvent) -> bool {
        match self {
            ChatAction::RequestCredential => event is Credential,
            ChatAction::Refresh(_) => event is Refreshed,
            ChatAction::Forward(_) => event is Forwarded,
            ChatAction::Sleep(_) => event is Slept,
            ChatAction::Deliver => false,
            ChatAction::Fail(_) => false,
        }
    }
}

/// What to do: first give a credential back, where there is one to give, then
/// act.
#[derive(Debug)]
pub struct Directive {
    pub give_back: Option<GiveBack>,
    pub action: ChatAction,
}

/// What a session waits for.
#[derive(Clone, Copy, Debug, PartialEq, Eq, Structural)]
pub enum Phase {
    /// A credential from the pool.
    Asking,
    /// A new token in place of a stale one.
    Refreshing,
    /// The backend's answer.
    Forwarding,
    /// A new token in place of one that the backend refused.
    Recovering,
    /// The end of a wait.
    Sleeping,
    /// Nothing any more.
    Over,
}

/// The attempts to have one request answered.
#[derive(Debug)]
pub struct ChatSession {
    state: CodexState,
    attempt: usize,
    max_retries: usize,
    phase: Phase,
}

/// A session as a mathematical value.
pub struct ChatView {
    pub state: CodexState,
    /// The number of the current attempt, from zero.
    pub attempt: usize,
    /// The number of the last attempt that may be made.
    pub max_retries: usize,
    pub phase: Phase,
}

impl View for ChatSession {
    type V = ChatView;

    closed spec fn view(&self) -> ChatView {
        ChatView {
            state: self.state,
            attempt: self.attempt,
            max_retries: self.max_retries,
            phase: self.phase,
        }
    }
}

/// The last attempt after which the wait still fits into 64 bits of
/// milliseconds.
pub const LAST_WAIT: usize = 54;

/// The wait after a server error: a second after the first attempt, and twice
/// as long after each further one.
pub open spec fn backoff(attempt: usize) -> nat {
    1000 * pow2(attempt as nat)
}

/// The status of an error reply of the backend.
pub open spec fn refused_with(error: ClewdrError) -> Option<u16> {
    match error {
        ClewdrError::ClaudeHttpError { code, inner } => Some(code),
        _ => None,
    }
}

/// An error after which the session waits.
pub open spec fn calls_for_wait(error: ClewdrError) -> bool {
    refused_with(error) matches Some(code) && server_error(code)
}

/// An error after which another attempt is made.
pub open spec fn calls_for_retry(error: ClewdrError) -> bool {
    refused_with(error) matches Some(code) && (code == 401 || code == 429 || server_error(code))
}

/// The error of an attempt whose credential has no token.
pub open spec fn no_token() -> ClewdrError {
    ClewdrError::BadRequest { msg: "No Codex token available - login required via dashboard" }
}

impl ChatView {
    /// The event is one that the session waits for.
    pub open spec fn awaits(self, event: ChatEvent) -> bool {
        match event {
            ChatEvent::Credential { .. } => self.phase is Asking,
            ChatEvent::Refreshed(_) => self.phase is Refreshing || self.phase is Recovering,
            ChatEvent::Forwarded(_) => self.phase is Forwarding,
            ChatEvent::Slept => self.phase is Sleeping,
        }
    }

    /// The error with which the event ends the work of the attempt.
    pub open spec fn failure(self, event: ChatEvent) -> Option<ClewdrError> {
        match event {
            ChatEvent::Refreshed(Err(e)) => if self.phase is Refreshing {
                Some(e)
            } else {
                None
            },
            ChatEvent::Forwarded(Err(e)) => Some(e),
            _ => None,
        }
    }

    /// The event does not call for a wait that is too long to be written down.
    pub open spec fn can_wait(self, event: ChatEvent) -> bool {
        self.failure(event) matches Some(e) && calls_for_wait(e) ==> self.attempt <= LAST_WAIT
    }

    /// The event can be taken.
    pub open spec fn accepts(self, event: ChatEvent) -> bool {
        self.awaits(event) && self.can_wait(event)
    }

    /// The attempt is over and calls for another one, unless it was the last.
    pub open spec fn retried(self, give_back: Option<GiveBack>) -> (ChatView, Directive) {
        if self.attempt < self.max_retries {
            (
                ChatView {
                    state: CodexState { credential: None, ..self.state },
                    attempt: (self.attempt + 1) as usize,
                    phase: Phase::Asking,
                    ..self
                },
                Directive { give_back, action: ChatAction::RequestCredential },
            )
        } else {
            (
                ChatView { phase: Phase::Over, ..self },
                Directive { give_back, action: ChatAction::Fail(ClewdrError::TooManyRetries) },
            )
        }
    }

    /// The attempt failed. Refused tokens are refreshed, rate limits lead to
    /// another credential, server errors are waited out, and any other error
    /// is the answer.
    pub open spec fn failed(self, error: ClewdrError) -> (ChatView, Directive) {
        match refused_with(error) {
            Some(code) => if code == 401 {
                match self.state.token() {
                    Some(token) => (
                        ChatView { phase: Phase::Recovering, ..self },
                        Directive { give_back: None, action: ChatAction::Refresh(token) },
                    ),
                    None => self.retried(self.state.given_back(Some("Unauthorized"))),
                }
            } else if code == 429 {
                self.retried(self.state.given_back(Some("Rate limited")))
            } else if server_error(code) {
                (
                    ChatView { phase: Phase::Sleeping, ..self },
                    Directive {
                        give_back: None,
                        action: ChatAction::Sleep(backoff(self.attempt) as u64),
                    },
                )
            } else {
                self.ended(error)
            },
            None => self.ended(error),
        }
    }

    /// The session ends with an error.
    pub open spec fn ended(self, error: ClewdrError) -> (ChatView, Directive) {
        (
            ChatView { phase: Phase::Over, ..self },
            Directive { give_back: None, action: ChatAction::Fail(error) },
        )
    }

    /// The request is sent with the token at hand.
    pub open spec fn forwarded(self, token: CodexTokenInfo, give_back: Option<GiveBack>) -> (
        ChatView,
        Directive,
    ) {
        (
            ChatView { phase: Phase::Forwarding, ..self },
            Directive { give_back, action: ChatAction::Forward(token.access_token) },
        )
    }

    /// The pool granted a credential.
    pub open spec fn granted(self, stale: bool) -> (ChatView, Directive) {
        match self.state.token() {
            None => self.failed(no_token()),
            Some(token) => if stale {
                (
                    ChatView { phase: Phase::Refreshing, ..self },
                    Directive { give_back: None, action: ChatAction::Refresh(token) },
                )
            } else {
                self.forwarded(token, None)
            },
        }
    }

    /// The session with a credential of the pool.
    pub open spec fn with_credential(self, credential: CodexCredential) -> ChatView {
        ChatView { state: CodexState { credential: Some(credential), ..self.state }, ..self }
    }

    /// The session with a new token for its credential.
    pub open spec fn with_token(self, token: CodexTokenInfo) -> ChatView {
        ChatView { state: self.state.with_token(token), ..self }
    }

    /// What an event leads to.
    pub open spec fn next(self, event: ChatEvent) -> (ChatView, Directive) {
        match event {
            ChatEvent::Credential { granted, client, stale } => match granted {
                Err(e) => self.ended(e),
                Ok(credential) => match client {
                    Err(source) => self.with_credential(credential).ended(
                        ClewdrError::WreqError {
                            msg: "Failed to build codex client with new credential",
                            source,
                        },
                    ),
                    Ok(_) => self.with_credential(credential).granted(stale),
                },
            },
            ChatEvent::Refreshed(result) => if self.phase is Refreshing {
                match result {
                    Ok(token) => self.with_token(token).forwarded(
                        token,
                        self.with_token(token).state.given_back(None),
                    ),
                    Err(e) => self.failed(e),
                }
            } else {
                match result {
                    Ok(token) => self.with_token(token).retried(
                        self.with_token(token).state.given_back(None),
                    ),
                    Err(_) => self.retried(self.state.given_back(Some("Token refresh failed"))),
                }
            },
            ChatEvent::Forwarded(result) => match result {
                Ok(_) => (
                    ChatView { phase: Phase::Over, ..self },
                    Directive { give_back: None, action: ChatAction::Deliver },
                ),
                Err(e) => self.failed(e),
            },
            ChatEvent::Slept => self.retried(None),
        }
    }

    /// A session that waits for a credential has none; one that waits for a
    /// token or an answer has a credential with a token.
    pub open spec fn well_formed(self) -> bool {
        &&& self.attempt <= self.max_retries
        &&& self.phase is Asking ==> self.state.credential is None
        &&& (self.phase is Refreshing || self.phase is Forwarding || self.phase is Recovering)
            ==> self.state.token() is Some
    }
}

impl ChatSession {
    fn retry(self, give_back: Option<GiveBack>) -> (next: (ChatSession, Directive))
        ensures
            (next.0@, next.1) == self@.retried(give_back),
    {
        if self.attempt < self.max_retries {
            (
                ChatSession {
                    state: CodexState {
                        credential: None,
                        endpoint: self.state.endpoint,
                        stream: self.state.stream,
                    },
                    attempt: self.attempt + 1,
                    max_retries: self.max_retries,
                    phase: Phase::Asking,
                },
                Directive { give_back, action: ChatAction::RequestCredential },
            )
        } else {
            (
                self.in_phase(Phase::Over),
                Directive { give_back, action: ChatAction::Fail(ClewdrError::TooManyRetries) },
            )
        }
    }

    fn in_phase(self, phase: Phase) -> (session: ChatSession)
        ensures
            session@ == (ChatView { phase, ..self@ }),
    {
        ChatSession {
            state: self.state,
            attempt: self.attempt,
            max_retries: self.max_retries,
            phase,
        }
    }

    fn end(self, error: ClewdrError) -> (next: (ChatSession, Directive))
        ensures
            (next.0@, next.1) == self@.ended(error),
    {
        (
            self.in_phase(Phase::Over),
            Directive { give_back: None, action: ChatAction::Fail(error) },
        )
    }

    fn fail(self, error: ClewdrError) -> (next: (ChatSession, Directive))
        requires
            calls_for_wait(error) ==> self@.attempt <= LAST_WAIT,
        ensures
            (next.0@, next.1) == self@.failed(error),
    {
        let code: u16 = match &error {
            ClewdrError::ClaudeHttpError { code, .. } => *code,
            _ => {
                return self.end(error);
            },
        };
        if code == 401 {
            return match self.state.current_token() {
                Some(token) => (
                    self.in_phase(Phase::Recovering),
                    Directive { give_back: None, action: ChatAction::Refresh(token) },
                ),
                None => {
                    let back = self.state.return_credential(Some("Unauthorized"));
                    self.retry(back)
                },
            };
        }
        if code == 429 {
            let back = self.state.return_credential(Some("Rate limited"));
            return self.retry(back);
        }
        if is_server_error(code) {
            let delay = backoff_millis(self.attempt);
            return (
                self.in_phase(Phase::Sleeping),
                Directive { give_back: None, action: ChatAction::Sleep(delay) },
            );
        }
        self.end(error)
    }

    fn grant(self, stale: bool) -> (next: (ChatSession, Directive))
        ensures
            (next.0@, next.1) == self@.granted(stale),
    {
        match self.state.check_token(stale) {
            CodexTokenStatus::Missing => self.fail(
                ClewdrError::BadRequest {
                    msg: "No Codex token available - login required via dashboard",
                },
            ),
            CodexTokenStatus::Stale => match self.state.current_token() {
                Some(token) => (
                    self.in_phase(Phase::Refreshing),
                    Directive { give_back: None, action: ChatAction::Refresh(token) },
                ),
                None => self.end(ClewdrError::UnexpectedNone { msg: "No token to refresh" }),
            },
            CodexTokenStatus::Valid => match self.state.current_token() {
                Some(token) => (
                    self.in_phase(Phase::Forwarding),
                    Directive { give_back: None, action: ChatAction::Forward(token.access_token) },
                ),
                None => self.end(
                    ClewdrError::UnexpectedNone {
                        msg: "No access token found in codex credential",
                    },
                ),
            },
        }
    }

    /// Decides what an event leads to.
    pub fn step(self, event: ChatEvent) -> (next: (ChatSession, Directive))
        requires
            self@.accepts(event),
        ensures
            (next.0@, next.1) == self@.next(event),
            self@.well_formed() ==> next.0@.well_formed(),
            forall|answer: ChatEvent| #[trigger]
                next.1.action.answered_by(answer) ==> next.0@.awaits(answer),
    {
        let mut session = self;
        match event {
            ChatEvent::Credential { granted, client, stale } => {
                match session.state.request_credential(granted, client) {
                    Ok(_) => session.grant(stale),
                    Err(e) => session.end(e),
                }
            },
            ChatEvent::Refreshed(result) => match session.phase {
                Phase::Refreshing => match result {
                    Ok(token) => {
                        let access_token = token.access_token.clone();
                        session.state.put_token(token);
                        let give_back = session.state.return_credential(None);
                        (
                            session.in_phase(Phase::Forwarding),
                            Directive { give_back, action: ChatAction::Forward(access_token) },
                        )
                    },
                    Err(e) => session.fail(e),
                },
                _ => match result {
                    Ok(token) => {
                        session.state.put_token(token);
                        let back = session.state.return_credential(None);
                        session.retry(back)
                    },
                    Err(_) => {
                        let back = session.state.return_credential(Some("Token refresh failed"));
                        session.retry(back)
                    },
                },
            },
            ChatEvent::Forwarded(result) => match result {
                Ok(_) => (
                    session.in_phase(Phase::Over),
                    Directive { give_back: None, action: ChatAction::Deliver },
                ),
                Err(e) => session.fail(e),
            },
            ChatEvent::Slept => session.retry(None),
        }
    }

    /// Whether the event can be taken.
    pub fn takes(&self, event: &ChatEvent) -> (yes: bool)
        ensures
            yes == self@.accepts(*event),
    {
        let (awaited, error) = match event {
            ChatEvent::Credential { .. } => (self.phase == Phase::Asking, None),
            ChatEvent::Refreshed(result) => match result {
                Err(e) => (
                    self.phase == Phase::Refreshing || self.phase == Phase::Recovering,
                    if self.phase == Phase::Refreshing {
                        Some(e)
                    } else {
                        None
                    },
                ),
                Ok(_) => (
                    self.phase == Phase::Refreshing || self.phase == Phase::Recovering,
                    None,
                ),
            },
            ChatEvent::Forwarded(result) => match result {
                Err(e) => (self.phase == Phase::Forwarding, Some(e)),
                Ok(_) => (self.phase == Phase::Forwarding, None),
            },
            ChatEvent::Slept => (self.phase == Phase::Sleeping, None),
        };
        let waits = match error {
            Some(ClewdrError::ClaudeHttpError { code, .. }) => is_server_error(*code),
            _ => false,
        };
        awaited && (!waits || self.attempt <= LAST_WAIT)
    }

    /// The number of the current attempt, from zero.
    pub fn attempt(&self) -> (attempt: usize)
        ensures
            attempt == self@.attempt,
    {
        self.attempt
    }

    /// What the current attempt works with.
    pub fn state(&self) -> (state: &CodexState)
        ensures
            *state == self@.state,
    {
        &self.state
    }
}

/// The wait after a server error, in milliseconds.
pub fn backoff_millis(attempt: usize) -> (millis: u64)
    requires
        attempt <= LAST_WAIT,
    ensures
        millis == backoff(attempt),
{
    let mut millis: u64 = 1000;
    let mut i: usize = 0;
    proof {
        vstd::arithmetic::power2::lemma2_to64();
    }
    while i < attempt
        invariant
            i <= attempt <= LAST_WAIT,
            millis == 1000 * pow2(i as nat),
        decreases attempt - i,
    {
        proof {
            vstd::arithmetic::power2::lemma2_to64();
            vstd::arithmetic::power2::lemma2_to64_rest();
            vstd::arithmetic::power2::lemma_pow2_unfold((i + 1) as nat);
            if i < 53 {
                vstd::arithmetic::power2::lemma_pow2_strictly_increases(i as nat, 53);
            }
        }
        millis = millis * 2;
        i += 1;
    }
    millis
}

impl CodexState {
    /// Starts to have a request answered, with up to `max_retries` attempts
    /// after the first. Every attempt works on a copy of its own: the state
    /// itself stays as it is.
    pub fn try_chat(&mut self, max_retries: usize) -> (start: (ChatSession, ChatAction))
        requires
            max_retries < usize::MAX,
        ensures
            *final(self) == *old(self),
            start.0@ == (ChatView {
                state: CodexState { credential: None, ..*old(self) },
                attempt: 0,
                max_retries,
                phase: Phase::Asking,
            }),
            start.0@.well_formed(),
            start.1 is RequestCredential,
            forall|answer: ChatEvent| #[trigger]
                start.1.answered_by(answer) ==> start.0@.accepts(answer),
    {
        (
            ChatSession {
                state: CodexState {
                    credential: None,
                    endpoint: self.endpoint.clone(),
                    stream: self.stream,
                },
                attempt: 0,
                max_retries,
                phase: Phase::Asking,
            },
            ChatAction::RequestCredential,
        )
    }
}

} // verus!
