//! One request to the Responses API: what is sent, and what becomes of the
//! reply.
use crate::codex_state::CodexState;
use crate::config::{opt_str, opt_text};
use crate::endpoint::{responses_url, url_below};
use crate::error::{ClaudeErrorBody, ClewdrError};
use crate::json::{json_document, parse, Json, JsonView};
use crate::text::{contains, occurs};
use crate::wire::{
    field, fields, is_success, passthrough_headers, stale, success, Field, Header, HttpRequest,
    HttpRequestView, Method, Payload, PayloadView,
};
use vstd::prelude::*;

verus! {

/// The document asks for a streamed reply: its member `stream` is true.
pub open spec fn asks_for_stream(document: JsonView) -> bool {
    document.get("stream"@) == Some(JsonView::Bool(true))
}

/// Whether a document asks for a streamed reply.
pub fn document_wants_stream(document: &Json) -> (wants: bool)
    ensures
        wants == asks_for_stream(document@),
{
    match document.get("stream") {
        Some(value) => match value.as_bool() {
            Some(b) => b,
            None => false,
        },
        None => false,
    }
}

/// The body of a request asks for a streamed reply.
pub open spec fn wants_stream(body: Seq<u8>) -> bool {
    json_document(body) matches Ok(document) && asks_for_stream(document)
}

/// Whether the body of a request asks for a streamed reply. A body that is no
/// JSON document does not.
pub fn request_wants_stream(body: &[u8]) -> (wants: bool)
    ensures
        wants == wants_stream(body@),
{
    match parse(body) {
        Ok(document) => document_wants_stream(&document),
        Err(_) => false,
    }
}

/// The headers of a request to the Responses API.
pub open spec fn forward_headers(account_id: Option<Seq<char>>) -> Seq<(Seq<char>, Seq<char>)> {
    let headers = seq![
        ("content-type"@, "application/json"@),
        ("accept"@, "text/event-stream"@),
        ("OpenAI-Beta"@, "responses=experimental"@),
    ];
    match account_id {
        Some(id) => headers.push(("chatgpt-account-id"@, id)),
        None => headers,
    }
}

/// The account that a request is made for, where it is known.
pub open spec fn account_of(state: CodexState) -> Option<Seq<char>> {
    match state.credential {
        Some(credential) => opt_text(credential.account_id),
        None => None,
    }
}

/// What to do with a reply of the backend.
#[derive(Clone, Copy, Debug, PartialEq, Eq, Structural)]
pub enum Verdict {
    /// Read the body as text and refuse.
    Refuse,
    /// Pass the events on as they come.
    Stream,
    /// Read the body and pass it on.
    PassOn,
}

/// The judgement on the head of a reply.
pub open spec fn verdict(status: u16, content_type: Option<Seq<char>>, wants_stream: bool) -> Verdict {
    if !success(status) {
        Verdict::Refuse
    } else if wants_stream || (content_type matches Some(kind) && occurs(
        kind,
        "text/event-stream"@,
    )) {
        Verdict::Stream
    } else {
        Verdict::PassOn
    }
}

/// What the client of the relay gets.
#[derive(Debug)]
pub enum Relayed {
    Stream,
    Whole { status: u16, headers: Vec<Header>, body: Vec<u8> },
}

/// A backend reply that is passed on whole.
pub open spec fn passed_on(relayed: Relayed, status: u16, headers: Seq<Header>, body: Vec<u8>) -> bool {
    relayed matches Relayed::Whole { status: s, headers: h, body: b } && {
        &&& s == status
        &&& h@ == headers.filter(|header: Header| !stale(header.name@))
        &&& b == body
    }
}

impl Relayed {
    /// Passes a backend reply on, without the headers that describe its
    /// transfer.
    pub fn whole(status: u16, headers: Vec<Header>, body: Vec<u8>) -> (relayed: Relayed)
        ensures
            passed_on(relayed, status, headers@, body),
    {
        Relayed::Whole { status, headers: passthrough_headers(headers), body }
    }
}

/// What came of the work outside.
#[derive(Debug)]
pub enum ForwardEvent {
    /// The request could not be sent.
    Unsent { source: String },
    /// The head of a reply came. The content type is given where it is text.
    Head { status: u16, content_type: Option<String>, headers: Vec<Header> },
    /// The body of a refusal, where it could be read as text.
    Text(Option<String>),
    /// The body of a reply, or why it could not be read.
    Body(Result<Vec<u8>, String>),
}

/// The work to be done next.
#[derive(Debug)]
pub enum ForwardAction {
    /// Read the body of the reply as text.
    ReadText,
    /// Read the body of the reply.
    ReadBody,
    /// The request is done with. Where the result is a stream, the events of
    /// the reply are passed on as they come.
    Done(Result<Relayed, ClewdrError>),
}

impl ForwardAction {
    /// The event is one that this work ends with.
    pub open spec fn answered_by(self, event: ForwardEvent) -> bool {
        match self {
            ForwardAction::ReadText => event is Text,
            ForwardAction::ReadBody => event is Body,
            ForwardAction::Done(_) => false,
        }
    }
}

/// What a request waits for.
#[derive(Debug)]
pub enum ForwardPhase {
    /// The head of the reply.
    Sending { wants_stream: bool },
    /// The text of a refusal.
    ReadingText { status: u16 },
    /// The body of a reply with this head.
    ReadingBody { status: u16, headers: Vec<Header> },
    /// Nothing any more.
    Over,
}

/// One request to the Responses API.
#[derive(Debug)]
pub struct Forwarding {
    phase: ForwardPhase,
}

/// The text of a refusal; empty where it could not be read.
pub open spec fn text_or_empty(text: Option<String>) -> Seq<char> {
    match text {
        Some(t) => t@,
        None => Seq::empty(),
    }
}

/// The error for a refusal with this status and text.
pub open spec fn refused(result: Result<Relayed, ClewdrError>, status: u16, text: Seq<char>) -> bool {
    result matches Err(ClewdrError::ClaudeHttpError { code, inner }) && {
        &&& code == status
        &&& inner.message@ == text
        &&& inner.kind@ == "codex_error"@
        &&& inner.code == Some(status)
    }
}

impl Forwarding {
    pub closed spec fn phase(self) -> ForwardPhase {
        self.phase
    }

    /// The event is one that the request waits for.
    pub open spec fn accepts(self, event: ForwardEvent) -> bool {
        match event {
            ForwardEvent::Unsent { .. } => self.phase() is Sending,
            ForwardEvent::Head { .. } => self.phase() is Sending,
            ForwardEvent::Text(_) => self.phase() is ReadingText,
            ForwardEvent::Body(_) => self.phase() is ReadingBody,
        }
    }

    /// What the head of a reply leads to.
    pub open spec fn heads_to(
        self,
        status: u16,
        content_type: Option<Seq<char>>,
        headers: Vec<Header>,
        then: Forwarding,
        action: ForwardAction,
    ) -> bool {
        match verdict(status, content_type, self.phase()->Sending_wants_stream) {
            Verdict::Refuse => {
                &&& action is ReadText
                &&& then.phase() == (ForwardPhase::ReadingText { status })
            },
            Verdict::Stream => {
                &&& action == ForwardAction::Done(Ok::<_, ClewdrError>(Relayed::Stream))
                &&& then.phase() is Over
            },
            Verdict::PassOn => {
                &&& action is ReadBody
                &&& then.phase() == (ForwardPhase::ReadingBody { status, headers })
            },
        }
    }

    /// What an event leads to.
    pub open spec fn leads_to(
        self,
        event: ForwardEvent,
        then: Forwarding,
        action: ForwardAction,
    ) -> bool {
        match event {
            ForwardEvent::Unsent { source } => {
                &&& action == ForwardAction::Done(
                    Err::<Relayed, _>(
                        ClewdrError::WreqError { msg: "Failed to send request to OpenAI", source },
                    ),
                )
                &&& then.phase() is Over
            },
            ForwardEvent::Head { status, content_type, headers } => {
                self.heads_to(status, opt_text(content_type), headers, then, action)
            },
            ForwardEvent::Text(text) => {
                &&& action matches ForwardAction::Done(result) && refused(
                    result,
                    self.phase()->ReadingText_status,
                    text_or_empty(text),
                )
                &&& then.phase() is Over
            },
            ForwardEvent::Body(Ok(body)) => {
                &&& action matches ForwardAction::Done(Ok(relayed)) && passed_on(
                    relayed,
                    self.phase()->ReadingBody_status,
                    self.phase()->ReadingBody_headers@,
                    body,
                )
                &&& then.phase() is Over
            },
            ForwardEvent::Body(Err(source)) => {
                &&& action == ForwardAction::Done(
                    Err::<Relayed, _>(
                        ClewdrError::WreqError {
                            msg: "Failed to read OpenAI response body",
                            source,
                        },
                    ),
                )
                &&& then.phase() is Over
            },
        }
    }

    /// Decides what an event leads to.
    pub fn step(self, event: ForwardEvent) -> (next: (Forwarding, ForwardAction))
        requires
            self.accepts(event),
        ensures
            self.leads_to(event, next.0, next.1),
            forall|answer: ForwardEvent| #[trigger]
                next.1.answered_by(answer) ==> next.0.accepts(answer),
    {
        match event {
            ForwardEvent::Unsent { source } => Self::over(
                Err(ClewdrError::WreqError { msg: "Failed to send request to OpenAI", source }),
            ),
            ForwardEvent::Head { status, content_type, headers } => {
                let wants_stream = match self.phase {
                    ForwardPhase::Sending { wants_stream } => wants_stream,
                    _ => false,
                };
                let kind = match &content_type {
                    Some(kind) => Some(kind.as_str()),
                    None => None,
                };
                match CodexState::judge_reply(status, kind, wants_stream) {
                    Verdict::Refuse => (
                        Forwarding { phase: ForwardPhase::ReadingText { status } },
                        ForwardAction::ReadText,
                    ),
                    Verdict::Stream => Self::over(Ok(Relayed::Stream)),
                    Verdict::PassOn => (
                        Forwarding { phase: ForwardPhase::ReadingBody { status, headers } },
                        ForwardAction::ReadBody,
                    ),
                }
            },
            ForwardEvent::Text(text) => {
                let status: u16 = match self.phase {
                    ForwardPhase::ReadingText { status } => status,
                    _ => 0,
                };
                let message = match text {
                    Some(t) => t,
                    None => String::new(),
                };
                Self::over(
                    Err(
                        ClewdrError::ClaudeHttpError {
                            code: status,
                            inner: ClaudeErrorBody {
                                message,
                                kind: "codex_error".to_owned(),
                                code: Some(status),
                            },
                        },
                    ),
                )
            },
            ForwardEvent::Body(result) => match result {
                Ok(body) => match self.phase {
                    ForwardPhase::ReadingBody { status, headers } => Self::over(
                        Ok(Relayed::whole(status, headers, body)),
                    ),
                    _ => Self::over(Ok(Relayed::Stream)),
                },
                Err(source) => Self::over(
                    Err(
                        ClewdrError::WreqError {
                            msg: "Failed to read OpenAI response body",
                            source,
                        },
                    ),
                ),
            },
        }
    }

    fn over(result: Result<Relayed, ClewdrError>) -> (next: (Forwarding, ForwardAction))
        ensures
            next.0.phase() is Over,
            next.1 == ForwardAction::Done(result),
    {
        (Forwarding { phase: ForwardPhase::Over }, ForwardAction::Done(result))
    }
}

impl CodexState {
    /// The request to the Responses API with the body as it came, and what is
    /// made of the reply. Nothing comes back where the endpoint is no URL to
    /// join to, or too long a text to be read as one.
    pub fn forward_request(&self, access_token: &str, body: Vec<u8>) -> (start: Option<
        (Forwarding, HttpRequest),
    >)
        ensures
            match start {
                Some((forwarding, request)) => {
                    &&& forwarding.phase() == (ForwardPhase::Sending {
                        wants_stream: wants_stream(body@),
                    })
                    &&& url_below(self.endpoint@, "responses"@) matches Some(url) && request@ == (
                    HttpRequestView {
                        method: Method::Post,
                        url,
                        bearer: Some(access_token@),
                        headers: forward_headers(account_of(*self)),
                        payload: PayloadView::Raw(body@),
                    })
                },
                None => url_below(self.endpoint@, "responses"@) is None,
            },
    {
        let wants_stream = request_wants_stream(body.as_slice());
        match responses_url(self.endpoint.as_str()) {
            Some(url) => {
                let mut headers: Vec<Field> = Vec::new();
                headers.push(field("content-type", "application/json"));
                headers.push(field("accept", "text/event-stream"));
                headers.push(field("OpenAI-Beta", "responses=experimental"));
                self.push_account(&mut headers);
                assert(fields(headers@) =~= forward_headers(account_of(*self)));
                let request = HttpRequest {
                    method: Method::Post,
                    url,
                    bearer: Some(access_token.to_owned()),
                    headers,
                    payload: Payload::Raw(body),
                };
                Some((Forwarding { phase: ForwardPhase::Sending { wants_stream } }, request))
            },
            None => None,
        }
    }

    /// Adds the header that names the account, where it is known.
    pub(crate) fn push_account(&self, headers: &mut Vec<Field>)
        ensures
            match account_of(*self) {
                Some(id) => fields(final(headers)@) == fields(old(headers)@).push(
                    ("chatgpt-account-id"@, id),
                ),
                None => final(headers)@ == old(headers)@,
            },
    {
        if let Some(credential) = &self.credential {
            if let Some(id) = &credential.account_id {
                headers.push(field("chatgpt-account-id", id.as_str()));
                assert(fields(headers@) =~= fields(old(headers)@).push(
                    ("chatgpt-account-id"@, id@),
                ));
            }
        }
    }

    /// Judges a reply by its head. The backend does not always name a content
    /// type, so a request for a stream counts as well.
    pub fn judge_reply(status: u16, content_type: Option<&str>, wants_stream: bool) -> (judgement:
        Verdict)
        ensures
            judgement == verdict(status, opt_str(content_type), wants_stream),
    {
        if !is_success(status) {
            return Verdict::Refuse;
        }
        let is_event_stream = match content_type {
            Some(kind) => contains(kind, "text/event-stream"),
            None => false,
        };
        if is_event_stream || wants_stream {
            Verdict::Stream
        } else {
            Verdict::PassOn
        }
    }
}

/// A reply of the backend becomes an error of the backend exactly where its
/// status is not one of success. The error then carries the status and the
/// text of the reply; any other reply is passed on, or could not be read.
pub proof fn replies_are_errors_where_refused(
    start: Forwarding,
    head: ForwardEvent,
    then: Forwarding,
    action: ForwardAction,
    read: ForwardEvent,
    end: Forwarding,
    last: ForwardAction,
)
    requires
        head is Head,
        start.accepts(head),
        start.leads_to(head, then, action),
    ensures
        !success(head->Head_status) ==> {
            &&& action is ReadText
            &&& then.accepts(read) && then.leads_to(read, end, last) ==> {
                &&& read matches ForwardEvent::Text(text) && last matches ForwardAction::Done(result)
                    && refused(result, head->Head_status, text_or_empty(text))
            }
        },
        success(head->Head_status) ==> {
            &&& action matches ForwardAction::Done(result) ==> result == Ok::<_, ClewdrError>(
                Relayed::Stream,
            )
            &&& !(action is ReadText)
            &&& then.accepts(read) && then.leads_to(read, end, last) ==> {
                last matches ForwardAction::Done(result) && match read {
                    ForwardEvent::Body(Ok(body)) => result matches Ok(relayed) && passed_on(
                        relayed,
                        head->Head_status,
                        head->Head_headers@,
                        body,
                    ),
                    _ => result matches Err(e) && e is WreqError,
                }
            }
        },
{
}

} // verus!
