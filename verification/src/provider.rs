//! Fetching the list of models from the backend.
use crate::codex_state::{CodexState, CodexTokenStatus, GiveBack};
use crate::config::{CodexCredential, CodexTokenInfo};
use crate::endpoint::{models_url, models_url_text, url_query_names, ModelsUrl, ModelsUrlView};
use crate::error::ClewdrError;
use crate::forward::{account_of, passed_on, Relayed};
use crate::wire::{
    field, fields, Field, Header, HttpRequest, HttpRequestView, Method, Payload, PayloadView,
};
use vstd::prelude::*;

verus! {

/// What came of the work outside.
#[derive(Debug)]
pub enum ModelsEvent {
    /// The pool answered. `client` says whether an HTTP client could be built,
    /// and `stale` whether the token of the credential, if it has one, has to
    /// be refreshed.
    Credential {
        granted: Result<CodexCredential, ClewdrError>,
        client: Result<(), String>,
        stale: bool,
    },
    /// The stale token was refreshed, or could not be.
    Refreshed(Result<CodexTokenInfo, ClewdrError>),
    /// The request could not be sent.
    Unsent { source: String },
    /// The head of a reply came.
    Head { status: u16, headers: Vec<Header> },
    /// The body of the reply, or why it could not be read.
    Body(Result<Vec<u8>, String>),
}

/// The work to be done next.
#[derive(Debug)]
pub enum ModelsAction {
    RequestCredential,
    /// Refresh this token.
    Refresh(CodexTokenInfo),
    /// Send this request.
    Send(HttpRequest),
    /// Say in words that no client can send a URL this long.
    Overlong,
    /// Read the body of the reply.
    Read,
    /// Deliver the reply, whatever its status.
    Deliver(Relayed),
    Fail(ClewdrError),
    /// Nothing can be sent: the base of the backend is no URL to join to, or
    /// the URL below it is one that cannot be read back.
    NoBase,
}

impl ModelsAction {
    /// The event is one that this work ends with.
    pub open spec fn answered_by(self, event: ModelsEvent) -> bool {
        match self {
            ModelsAction::RequestCredential => event is Credential,
            ModelsAction::Refresh(_) => event is Refreshed,
            ModelsAction::Send(_) => event is Unsent || event is Head,
            ModelsAction::Overlong => event is Unsent,
            ModelsAction::Read => event is Body,
            ModelsAction::Deliver(_) => false,
            ModelsAction::Fail(_) => false,
            ModelsAction::NoBase => false,
        }
    }
}

/// What to do: first give a credential back, where there is one to give, then
/// act.
#[derive(Debug)]
pub struct ModelsDirective {
    pub give_back: Option<GiveBack>,
    pub action: ModelsAction,
}

/// What a session waits for.
#[derive(Debug)]
pub enum ModelsPhase {
    /// A credential from the pool.
    Asking,
    /// A new token in place of a stale one.
    Refreshing,
    /// The head of the reply.
    Sending,
    /// The refusal of a URL that is too long.
    Overlong,
    /// The body of a reply with this head.
    Reading { status: u16, headers: Vec<Header> },
    /// Nothing any more.
    Over,
}

/// One request for the list of models.
#[derive(Debug)]
pub struct ModelsSession {
    state: CodexState,
    query: String,
    phase: ModelsPhase,
}

/// The headers of a request for the list of models.
pub open spec fn models_headers(account_id: Option<Seq<char>>) -> Seq<(Seq<char>, Seq<char>)> {
    let headers = seq![("OpenAI-Beta"@, "responses=experimental"@)];
    match account_id {
        Some(id) => headers.push(("chatgpt-account-id"@, id)),
        None => headers,
    }
}

/// The request for the list of models at `url`.
pub open spec fn models_request(
    url: Seq<char>,
    access_token: Seq<char>,
    account_id: Option<Seq<char>>,
) -> HttpRequestView {
    HttpRequestView {
        method: Method::Get,
        url,
        bearer: Some(access_token),
        headers: models_headers(account_id),
        payload: PayloadView::Empty,
    }
}

impl ModelsSession {
    pub closed spec fn state(self) -> CodexState {
        self.state
    }

    pub closed spec fn query(self) -> Seq<char> {
        self.query@
    }

    pub closed spec fn phase(self) -> ModelsPhase {
        self.phase
    }

    /// The event is one that the session waits for.
    pub open spec fn accepts(self, event: ModelsEvent) -> bool {
        match event {
            ModelsEvent::Credential { .. } => self.phase() is Asking,
            ModelsEvent::Refreshed(_) => self.phase() is Refreshing,
            ModelsEvent::Unsent { .. } => self.phase() is Sending || self.phase() is Overlong,
            ModelsEvent::Head { .. } => self.phase() is Sending,
            ModelsEvent::Body(_) => self.phase() is Reading,
        }
    }

    /// A session that waits for a credential has none; one that waits for a new
    /// token, or for a reply, has a credential with a token.
    pub open spec fn well_formed(self) -> bool {
        match self.phase() {
            ModelsPhase::Asking => self.state().credential is None,
            ModelsPhase::Over => true,
            _ => self.state().token() is Some,
        }
    }

    /// The session is over, with an error.
    pub open spec fn failed(self, directive: ModelsDirective, error: ClewdrError) -> bool {
        &&& directive == (ModelsDirective { give_back: None, action: ModelsAction::Fail(error) })
        &&& self.phase() is Over
    }

    /// The request is made with the token at hand.
    pub open spec fn requested(self, directive: ModelsDirective) -> bool {
        match models_url_text(self.state().endpoint@, self.query()) {
            ModelsUrlView::Url(url) => {
                &&& directive.action matches ModelsAction::Send(request) && request@
                    == models_request(
                    url,
                    self.state().token()->0.access_token@,
                    account_of(self.state()),
                )
                &&& self.phase() is Sending
            },
            ModelsUrlView::Overlong => directive.action is Overlong && self.phase() is Overlong,
            ModelsUrlView::NoBase => directive.action is NoBase && self.phase() is Over,
        }
    }

    /// The session got a credential, whose token may have gone stale.
    pub open spec fn granted(self, stale: bool, directive: ModelsDirective) -> bool {
        match self.state().token() {
            None => self.failed(
                directive,
                ClewdrError::BadRequest {
                    msg: "No Codex token available - login required via dashboard",
                },
            ),
            Some(token) => if stale {
                &&& directive == (ModelsDirective {
                    give_back: None,
                    action: ModelsAction::Refresh(token),
                })
                &&& self.phase() is Refreshing
            } else {
                directive.give_back is None && self.requested(directive)
            },
        }
    }

    /// What an event leads to.
    pub open spec fn leads_to(
        self,
        event: ModelsEvent,
        then: ModelsSession,
        directive: ModelsDirective,
    ) -> bool {
        match event {
            ModelsEvent::Credential { granted, client, stale } => match granted {
                Err(e) => then.state() == self.state() && then.failed(directive, e),
                Ok(credential) => {
                    &&& then.state() == (CodexState {
                        credential: Some(credential),
                        ..self.state()
                    })
                    &&& match client {
                        Err(source) => then.failed(
                            directive,
                            ClewdrError::WreqError {
                                msg: "Failed to build codex client with new credential",
                                source,
                            },
                        ),
                        Ok(_) => then.granted(stale, directive),
                    }
                },
            },
            ModelsEvent::Refreshed(result) => match result {
                Ok(token) => {
                    &&& then.state() == self.state().with_token(token)
                    &&& directive.give_back == then.state().given_back(None)
                    &&& then.requested(directive)
                },
                Err(e) => then.state() == self.state() && then.failed(directive, e),
            },
            ModelsEvent::Unsent { source } => {
                &&& then.state() == self.state()
                &&& then.failed(
                    directive,
                    ClewdrError::WreqError { msg: "Failed to fetch models from OpenAI", source },
                )
            },
            ModelsEvent::Head { status, headers } => {
                &&& then.state() == self.state()
                &&& directive == (ModelsDirective {
                    give_back: self.state().given_back(None),
                    action: ModelsAction::Read,
                })
                &&& then.phase() == (ModelsPhase::Reading { status, headers })
            },
            ModelsEvent::Body(Ok(body)) => {
                &&& then.state() == self.state()
                &&& directive.give_back is None
                &&& directive.action matches ModelsAction::Deliver(relayed) && passed_on(
                    relayed,
                    self.phase()->Reading_status,
                    self.phase()->Reading_headers@,
                    body,
                )
                &&& then.phase() is Over
            },
            ModelsEvent::Body(Err(source)) => {
                &&& then.state() == self.state()
                &&& then.failed(
                    directive,
                    ClewdrError::WreqError { msg: "Failed to read models response", source },
                )
            },
        }
    }

    fn end(self, error: ClewdrError) -> (next: (ModelsSession, ModelsDirective))
        ensures
            next.0.state() == self.state(),
            next.0.query() == self.query(),
            next.0.failed(next.1, error),
    {
        (
            ModelsSession { state: self.state, query: self.query, phase: ModelsPhase::Over },
            ModelsDirective { give_back: None, action: ModelsAction::Fail(error) },
        )
    }

    /// Makes the request with the given access token.
    fn request(self, access_token: &str, give_back: Option<GiveBack>) -> (next: (
        ModelsSession,
        ModelsDirective,
    ))
        requires
            self.state().token() matches Some(token) && token.access_token@ == access_token@,
        ensures
            next.0.state() == self.state(),
            next.0.query() == self.query(),
            next.1.give_back == give_back,
            next.0.requested(next.1),
            next.1.action matches ModelsAction::Send(request) ==> (url_query_names(request.url@) matches Some(
                names,
            ) && names.contains("client_version"@)),
    {
        let ModelsSession { state, query, .. } = self;
        let (phase, action) = match models_url(state.endpoint.as_str(), query.as_str()) {
            ModelsUrl::Url(url) => {
                let mut headers: Vec<Field> = Vec::new();
                headers.push(field("OpenAI-Beta", "responses=experimental"));
                state.push_account(&mut headers);
                assert(fields(headers@) =~= models_headers(account_of(state)));
                let request = HttpRequest {
                    method: Method::Get,
                    url,
                    bearer: Some(access_token.to_owned()),
                    headers,
                    payload: Payload::Empty,
                };
                (ModelsPhase::Sending, ModelsAction::Send(request))
            },
            ModelsUrl::Overlong => (ModelsPhase::Overlong, ModelsAction::Overlong),
            ModelsUrl::NoBase => (ModelsPhase::Over, ModelsAction::NoBase),
        };
        (ModelsSession { state, query, phase }, ModelsDirective { give_back, action })
    }

    fn grant(self, stale: bool) -> (next: (ModelsSession, ModelsDirective))
        ensures
            next.0.state() == self.state(),
            next.0.query() == self.query(),
            next.0.granted(stale, next.1),
            next.1.action matches ModelsAction::Send(request) ==> (url_query_names(request.url@) matches Some(
                names,
            ) && names.contains("client_version"@)),
    {
        match self.state.check_token(stale) {
            CodexTokenStatus::Missing => self.end(
                ClewdrError::BadRequest {
                    msg: "No Codex token available - login required via dashboard",
                },
            ),
            CodexTokenStatus::Stale => match self.state.current_token() {
                Some(token) => (
                    ModelsSession {
                        state: self.state,
                        query: self.query,
                        phase: ModelsPhase::Refreshing,
                    },
                    ModelsDirective { give_back: None, action: ModelsAction::Refresh(token) },
                ),
                None => self.end(ClewdrError::UnexpectedNone { msg: "No token to refresh" }),
            },
            CodexTokenStatus::Valid => match self.state.current_token() {
                Some(token) => self.request(token.access_token.as_str(), None),
                None => self.end(
                    ClewdrError::UnexpectedNone { msg: "No access token for models request" },
                ),
            },
        }
    }

    /// Decides what an event leads to.
    pub fn step(self, event: ModelsEvent) -> (next: (ModelsSession, ModelsDirective))
        requires
            self.well_formed(),
            self.accepts(event),
        ensures
            self.leads_to(event, next.0, next.1),
            next.0.query() == self.query(),
            next.0.state().endpoint == self.state().endpoint,
            next.0.well_formed(),
            next.1.action matches ModelsAction::Send(request) ==> (url_query_names(request.url@) matches Some(
                names,
            ) && names.contains("client_version"@)),
            forall|answer: ModelsEvent| #[trigger]
                next.1.action.answered_by(answer) ==> next.0.accepts(answer),
    {
        let mut session = self;
        match event {
            ModelsEvent::Credential { granted, client, stale } => {
                match session.state.request_credential(granted, client) {
                    Ok(_) => session.grant(stale),
                    Err(e) => session.end(e),
                }
            },
            ModelsEvent::Refreshed(result) => match result {
                Ok(token) => {
                    let access_token = token.access_token.clone();
                    session.state.put_token(token);
                    let give_back = session.state.return_credential(None);
                    session.request(access_token.as_str(), give_back)
                },
                Err(e) => session.end(e),
            },
            ModelsEvent::Unsent { source } => session.end(
                ClewdrError::WreqError { msg: "Failed to fetch models from OpenAI", source },
            ),
            ModelsEvent::Head { status, headers } => {
                let give_back = session.state.return_credential(None);
                (
                    ModelsSession {
                        state: session.state,
                        query: session.query,
                        phase: ModelsPhase::Reading { status, headers },
                    },
                    ModelsDirective { give_back, action: ModelsAction::Read },
                )
            },
            ModelsEvent::Body(result) => match result {
                Ok(body) => {
                    let relayed = match session.phase {
                        ModelsPhase::Reading { status, headers } => Relayed::whole(
                            status,
                            headers,
                            body,
                        ),
                        _ => Relayed::Stream,
                    };
                    (
                        ModelsSession {
                            state: session.state,
                            query: session.query,
                            phase: ModelsPhase::Over,
                        },
                        ModelsDirective { give_back: None, action: ModelsAction::Deliver(relayed) },
                    )
                },
                Err(source) => session.end(
                    ClewdrError::WreqError { msg: "Failed to read models response", source },
                ),
            },
        }
    }
}

/// The backend behind the relay.
#[derive(Debug)]
pub struct CodexProvider {
    /// The base of the URLs of the backend.
    pub base: String,
}

impl CodexProvider {
    pub fn new(base: String) -> (provider: CodexProvider)
        ensures
            provider == (CodexProvider { base }),
    {
        CodexProvider { base }
    }

    /// Starts to fetch the list of models, with the caller's query.
    pub fn fetch_models(&self, query: &str) -> (start: (ModelsSession, ModelsAction))
        ensures
            start.0.state() == (CodexState {
                credential: None,
                endpoint: self.base,
                stream: true,
            }),
            start.0.query() == query@,
            start.0.phase() is Asking,
            start.0.well_formed(),
            start.1 is RequestCredential,
            forall|answer: ModelsEvent| #[trigger]
                start.1.answered_by(answer) ==> start.0.accepts(answer),
    {
        (
            ModelsSession {
                state: CodexState::new(self.base.clone()),
                query: query.to_owned(),
                phase: ModelsPhase::Asking,
            },
            ModelsAction::RequestCredential,
        )
    }
}

/// Where a reply came, the credential goes back to the pool before the reply
/// is delivered; so does a refreshed one before it is used.
pub proof fn credentials_go_back_to_the_pool(
    session: ModelsSession,
    event: ModelsEvent,
    then: ModelsSession,
    directive: ModelsDirective,
)
    requires
        session.well_formed(),
        session.accepts(event),
        session.leads_to(event, then, directive),
    ensures
        event is Head ==> directive.give_back == Some(
            GiveBack { credential: session.state().credential->0, reason: None },
        ),
        event matches ModelsEvent::Refreshed(Ok(token)) ==> directive.give_back == Some(
            GiveBack { credential: session.state().credential->0.with_token(token), reason: None },
        ),
{
}

} // verus!
