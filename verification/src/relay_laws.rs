//! What is sent to the backend and what of its replies reaches the client, in
//! so many words.
use crate::codex_state::CodexState;
use crate::config::{CodexCredential, CodexTokenInfo};
use crate::endpoint::{
    bootstrap_url, models_url, models_url_text, names_client_version, query_len, responses_url,
    url_joined, url_query_names, url_with_pair, url_with_query, ModelsUrl, ModelsUrlView,
};
use crate::error::ClewdrError;
use crate::forward::{
    asks_for_stream, document_wants_stream, request_wants_stream, wants_stream, ForwardAction,
    ForwardEvent, ForwardPhase, Forwarding, Relayed, Verdict,
};
use crate::json::{json_document, Json, JsonView};
use crate::provider::{
    CodexProvider, ModelsAction, ModelsDirective, ModelsEvent, ModelsPhase, ModelsSession,
};
use crate::text::{occurs, texts};
use crate::wire::{
    is_server_error, is_success, passthrough_headers, stale, Header, HttpRequest, Payload,
    PayloadView,
};
use vstd::prelude::*;

verus! {

/// A header is passed on unless it is one of the three that describe the
/// transfer; those that are keep their order.
pub open spec fn relayed_headers(headers: Seq<Header>) -> Seq<Header> {
    headers.filter(
        |header: Header|
            header.name@ != "transfer-encoding"@ && header.name@ != "content-encoding"@
                && header.name@ != "content-length"@,
    )
}

proof fn filters_agree(
    headers: Seq<Header>,
    one: spec_fn(Header) -> bool,
    other: spec_fn(Header) -> bool,
)
    requires
        forall|header: Header| #[trigger] one(header) == other(header),
    ensures
        headers.filter(one) == headers.filter(other),
{
    assert(one =~= other);
}

/// Of the headers of a reply exactly those are passed on, in order, whose name
/// is none of `transfer-encoding`, `content-encoding` and `content-length`.
pub proof fn only_transfer_headers_are_dropped(headers: Vec<Header>, kept: Vec<Header>)
    requires
        call_ensures(passthrough_headers, (headers,), kept),
    ensures
        kept@ == relayed_headers(headers@),
{
    filters_agree(
        headers@,
        |header: Header| !stale(header.name@),
        |header: Header|
            header.name@ != "transfer-encoding"@ && header.name@ != "content-encoding"@
                && header.name@ != "content-length"@,
    );
}

/// A header is among those that are passed on where it is among those that came
/// and has none of the three names; so a content type always is.
pub proof fn other_headers_reach_the_client(headers: Seq<Header>, header: Header)
    ensures
        relayed_headers(headers).contains(header) <==> {
            &&& headers.contains(header)
            &&& header.name@ != "transfer-encoding"@
            &&& header.name@ != "content-encoding"@
            &&& header.name@ != "content-length"@
        },
        headers.contains(header) && header.name@ == "content-type"@ ==> relayed_headers(
            headers,
        ).contains(header),
    decreases headers.len(),
{
    reveal_strlit("content-type");
    reveal_strlit("transfer-encoding");
    reveal_strlit("content-encoding");
    reveal_strlit("content-length");
    reveal(Seq::filter);
    assert("content-type"@.len() != "content-length"@.len());
    assert("content-type"@.len() != "content-encoding"@.len());
    assert("content-type"@.len() != "transfer-encoding"@.len());
    if headers.len() > 0 {
        let init = headers.drop_last();
        let last = headers.last();
        other_headers_reach_the_client(init, header);
        assert(headers =~= init.push(last));
        assert(init.push(last).contains(header) <==> init.contains(header) || last == header) by {
            broadcast use vstd::seq_lib::group_seq_properties;

        }
        assert(relayed_headers(init).push(last).contains(header) <==> relayed_headers(
            init,
        ).contains(header) || last == header) by {
            broadcast use vstd::seq_lib::group_seq_properties;

        }
    }
}

/// A reply that is passed on whole has the status and the body that came.
pub proof fn replies_are_passed_on_whole(
    status: u16,
    headers: Vec<Header>,
    body: Vec<u8>,
    relayed: Relayed,
)
    requires
        call_ensures(Relayed::whole, (status, headers, body), relayed),
    ensures
        relayed matches Relayed::Whole { status: s, headers: h, body: b } && {
            &&& s == status
            &&& h@ == relayed_headers(headers@)
            &&& b@ == body@
        },
{
    filters_agree(
        headers@,
        |header: Header| !stale(header.name@),
        |header: Header|
            header.name@ != "transfer-encoding"@ && header.name@ != "content-encoding"@
                && header.name@ != "content-length"@,
    );
}

/// Success is 200 to 299, and a fault of the server 500 to 599.
pub proof fn statuses_are_ranges(status: u16, success: bool, fault: bool)
    requires
        call_ensures(is_success, (status,), success),
        call_ensures(is_server_error, (status,), fault),
    ensures
        success <==> 200 <= status <= 299,
        fault <==> 500 <= status <= 599,
{
}

/// The view of a request is what the request holds.
pub proof fn requests_are_what_they_hold(request: HttpRequest, i: int)
    ensures
        request@.method == request.method,
        request@.url == request.url@,
        match request.bearer {
            Some(token) => request@.bearer == Some(token@),
            None => request@.bearer is None,
        },
        request@.headers.len() == request.headers@.len(),
        0 <= i < request.headers@.len() ==> request@.headers[i] == (
            request.headers@[i].name@,
            request.headers@[i].value@,
        ),
        match request.payload {
            Payload::Empty => request@.payload is Empty,
            Payload::Raw(bytes) => request@.payload == PayloadView::Raw(bytes@),
            Payload::Json(members) => request@.payload matches PayloadView::Json(list) && {
                &&& list.len() == members@.len()
                &&& 0 <= i < members@.len() ==> list[i] == (members@[i].name@, members@[i].value@)
            },
            Payload::Form(entries) => request@.payload matches PayloadView::Form(list) && {
                &&& list.len() == entries@.len()
                &&& 0 <= i < entries@.len() ==> list[i] == (entries@[i].name@, entries@[i].value@)
            },
        },
{
}

/// A body asks for a stream where it is a JSON document whose member `stream` is
/// `true`; a body that is no document, or has no such member, does not.
pub proof fn streams_are_asked_for_by_name(
    document: Json,
    wants: bool,
    body: &[u8],
    body_wants: bool,
)
    requires
        call_ensures(document_wants_stream, (&document,), wants),
        call_ensures(request_wants_stream, (body,), body_wants),
    ensures
        wants <==> (document@.get("stream"@) matches Some(JsonView::Bool(b)) && b),
        body_wants <==> (json_document(body@) matches Ok(read) && (read.get("stream"@) matches Some(
            JsonView::Bool(b),
        ) && b)),
        wants_stream(body@) == body_wants,
        asks_for_stream(document@) == wants,
{
}

/// The account header, where the account is known.
pub open spec fn account_header(credential: Option<CodexCredential>) -> Seq<(Seq<char>, Seq<char>)> {
    match credential {
        Some(CodexCredential { account_id: Some(id), .. }) => seq![("chatgpt-account-id"@, id@)],
        _ => Seq::empty(),
    }
}

/// A request to the Responses API is a POST of the body as it came, to
/// `responses` below the endpoint, with the access token given, the three fixed
/// headers and that of the account; what is awaited is a stream where the body
/// asks for one.
pub proof fn requests_are_forwarded_as_they_came(
    state: CodexState,
    access_token: &str,
    body: Vec<u8>,
    start: Option<(Forwarding, HttpRequest)>,
)
    requires
        call_ensures(CodexState::forward_request, (&state, access_token, body), start),
    ensures
        start is Some <==> state.endpoint@.len() <= 0x7fff_ffff && url_joined(
            state.endpoint@,
            "responses"@,
        ) is Some,
        start matches Some((forwarding, request)) ==> {
            &&& request@.method is Post
            &&& Some(request@.url) == url_joined(state.endpoint@, "responses"@)
            &&& request@.bearer == Some(access_token@)
            &&& request@.payload == PayloadView::Raw(body@)
            &&& request@.headers == seq![
                ("content-type"@, "application/json"@),
                ("accept"@, "text/event-stream"@),
                ("OpenAI-Beta"@, "responses=experimental"@),
            ] + account_header(state.credential)
            &&& forwarding.phase() == (ForwardPhase::Sending { wants_stream: wants_stream(body@) })
        },
{
    if let Some((forwarding, request)) = start {
        assert(request@.headers =~= seq![
            ("content-type"@, "application/json"@),
            ("accept"@, "text/event-stream"@),
            ("OpenAI-Beta"@, "responses=experimental"@),
        ] + account_header(state.credential));
    }
}

/// A reply is refused where its status is not 200 to 299, and otherwise
/// streamed where a stream was asked for or its content type says so; any other
/// reply is passed on.
pub proof fn replies_are_judged_by_their_head(
    status: u16,
    content_type: Option<&str>,
    wants_stream: bool,
    judgement: Verdict,
)
    requires
        call_ensures(CodexState::judge_reply, (status, content_type, wants_stream), judgement),
    ensures
        judgement is Refuse <==> status < 200 || status > 299,
        judgement is Stream <==> {
            &&& 200 <= status <= 299
            &&& wants_stream || (content_type matches Some(kind) && occurs(
                kind@,
                "text/event-stream"@,
            ))
        },
{
}

/// The head of a reply decides: a refusal is read as text, a stream is passed on
/// at once, and any other reply is read with its status and headers kept.
pub proof fn heads_decide(
    forwarding: Forwarding,
    status: u16,
    content_type: Option<String>,
    headers: Vec<Header>,
    then: Forwarding,
    action: ForwardAction,
    wants: bool,
)
    requires
        forwarding.phase() == (ForwardPhase::Sending { wants_stream: wants }),
        forwarding.leads_to(ForwardEvent::Head { status, content_type, headers }, then, action),
    ensures
        if status < 200 || status > 299 {
            &&& action is ReadText
            &&& then.phase() == (ForwardPhase::ReadingText { status })
        } else if wants || (content_type matches Some(kind) && occurs(
            kind@,
            "text/event-stream"@,
        )) {
            &&& action == ForwardAction::Done(Ok::<_, ClewdrError>(Relayed::Stream))
            &&& then.phase() is Over
        } else {
            &&& action is ReadBody
            &&& then.phase() == (ForwardPhase::ReadingBody { status, headers })
        },
{
}

/// A refusal becomes an error with its status and its text; a body that was read
/// is passed on whole with the head that came before it; and what kept the
/// client from sending or reading is named.
pub proof fn bodies_follow_their_heads(
    forwarding: Forwarding,
    event: ForwardEvent,
    then: Forwarding,
    action: ForwardAction,
)
    requires
        forwarding.accepts(event),
        forwarding.leads_to(event, then, action),
        !(event is Head),
    ensures
        then.phase() is Over,
        action is Done,
        match event {
            ForwardEvent::Unsent { source } => action->Done_0 matches Err(
                ClewdrError::WreqError { msg, source: why },
            ) && msg == "Failed to send request to OpenAI" && why == source,
            ForwardEvent::Text(text) => action->Done_0 matches Err(
                ClewdrError::ClaudeHttpError { code, inner },
            ) && forwarding.phase() == (ForwardPhase::ReadingText { status: code }) && {
                &&& inner.code == Some(code)
                &&& inner.kind@ == "codex_error"@
                &&& inner.message@ == match text {
                    Some(t) => t@,
                    None => Seq::empty(),
                }
            },
            ForwardEvent::Body(Ok(body)) => action->Done_0 matches Ok(
                Relayed::Whole { status, headers, body: passed },
            ) && (forwarding.phase() matches ForwardPhase::ReadingBody {
                status: came,
                headers: all,
            } && status == came && headers@ == relayed_headers(all@) && passed == body),
            ForwardEvent::Body(Err(source)) => action->Done_0 matches Err(
                ClewdrError::WreqError { msg, source: why },
            ) && msg == "Failed to read OpenAI response body" && why == source,
            ForwardEvent::Head { .. } => false,
        },
{
    if let ForwardPhase::ReadingBody { status, headers } = forwarding.phase() {
        filters_agree(
            headers@,
            |header: Header| !stale(header.name@),
            |header: Header|
                header.name@ != "transfer-encoding"@ && header.name@ != "content-encoding"@
                    && header.name@ != "content-length"@,
        );
    }
}

/// A request takes what its phase waits for, and a step of it is what its event
/// leads to.
pub proof fn forwarding_takes_what_it_waits_for(
    forwarding: Forwarding,
    event: ForwardEvent,
    next: (Forwarding, ForwardAction),
)
    requires
        call_ensures(Forwarding::step, (forwarding, event), next),
    ensures
        forwarding.leads_to(event, next.0, next.1),
        forwarding.accepts(event) <==> match event {
            ForwardEvent::Unsent { .. } => forwarding.phase() is Sending,
            ForwardEvent::Head { .. } => forwarding.phase() is Sending,
            ForwardEvent::Text(_) => forwarding.phase() is ReadingText,
            ForwardEvent::Body(_) => forwarding.phase() is ReadingBody,
        },
{
}

/// The request for the list of models is a GET at the models URL, without a
/// body, with the access token given, the fixed header and that of the account.
/// A URL that no client can send, or that cannot be put together, is not sent.
pub open spec fn asks_for_models(
    session: ModelsSession,
    access_token: Seq<char>,
    action: ModelsAction,
) -> bool {
    match models_url_text(session.state().endpoint@, session.query()) {
        ModelsUrlView::Url(url) => {
            &&& session.phase() is Sending
            &&& action matches ModelsAction::Send(request) && {
                &&& request@.method is Get
                &&& request@.url == url
                &&& request@.bearer == Some(access_token)
                &&& request@.payload is Empty
                &&& request@.headers == seq![("OpenAI-Beta"@, "responses=experimental"@)]
                    + account_header(session.state().credential)
            }
        },
        ModelsUrlView::Overlong => action is Overlong && session.phase() is Overlong,
        ModelsUrlView::NoBase => action is NoBase && session.phase() is Over,
    }
}

proof fn requested_models(session: ModelsSession, directive: ModelsDirective)
    requires
        session.requested(directive),
        session.state().token() is Some,
    ensures
        asks_for_models(session, session.state().token()->0.access_token@, directive.action),
{
    if let ModelsAction::Send(request) = directive.action {
        assert(request@.headers =~= seq![("OpenAI-Beta"@, "responses=experimental"@)]
            + account_header(session.state().credential));
    }
}

/// A credential that is granted for the list of models is used as it is: its
/// token is sent, refreshed first where it is stale, and where there is none the
/// client is told to log in.
pub proof fn models_use_the_grant_as_it_is(
    session: ModelsSession,
    granted: Result<CodexCredential, ClewdrError>,
    client: Result<(), String>,
    stale: bool,
    then: ModelsSession,
    directive: ModelsDirective,
)
    requires
        session.leads_to(ModelsEvent::Credential { granted, client, stale }, then, directive),
    ensures
        directive.give_back is None,
        match granted {
            Err(e) => directive.action == ModelsAction::Fail(e) && then.phase() is Over,
            Ok(credential) => {
                &&& then.state().credential == Some(credential)
                &&& then.state().endpoint == session.state().endpoint
                &&& match (client, credential.token) {
                    (Err(why), _) => {
                        &&& directive.action matches ModelsAction::Fail(
                            ClewdrError::WreqError { msg, source },
                        ) && msg == "Failed to build codex client with new credential" && source
                            == why
                        &&& then.phase() is Over
                    },
                    (Ok(_), None) => {
                        &&& directive.action matches ModelsAction::Fail(
                            ClewdrError::BadRequest { msg },
                        ) && msg == "No Codex token available - login required via dashboard"
                        &&& then.phase() is Over
                    },
                    (Ok(_), Some(token)) => if stale {
                        &&& directive.action matches ModelsAction::Refresh(t) && t == token
                        &&& then.phase() is Refreshing
                    } else {
                        asks_for_models(then, token.access_token@, directive.action)
                    },
                }
            },
        },
{
    if granted is Ok && client is Ok && granted->Ok_0.token is Some && !stale {
        requested_models(then, directive);
    }
}

/// A token that is refreshed for the list of models is taken whole: the
/// credential that goes back to the pool, and the one that the request goes on
/// with, hold it in every field and are otherwise as before.
pub proof fn models_take_a_refreshed_token_whole(
    session: ModelsSession,
    token: CodexTokenInfo,
    then: ModelsSession,
    directive: ModelsDirective,
)
    requires
        session.well_formed(),
        session.phase() is Refreshing,
        session.leads_to(
            ModelsEvent::Refreshed(Ok::<CodexTokenInfo, ClewdrError>(token)),
            then,
            directive,
        ),
    ensures
        directive.give_back matches Some(back) && {
            let before = session.state().credential->0;
            &&& back.reason is None
            &&& Some(back.credential) == then.state().credential
            &&& back.credential.token matches Some(now) && {
                &&& now.access_token == token.access_token
                &&& now.refresh_token == token.refresh_token
                &&& now.id_token == token.id_token
                &&& now.last_refresh == token.last_refresh
            }
            &&& back.credential.account_id == before.account_id
            &&& back.credential.label == before.label
            &&& back.credential.reset_time == before.reset_time
        },
        then.state().endpoint == session.state().endpoint,
        asks_for_models(then, token.access_token@, directive.action),
{
    requested_models(then, directive);
}

/// A reply to the request for the list of models is delivered whatever its
/// status, whole and without its transfer headers, after the credential went
/// back as it is; and what kept anything from coming is the answer.
pub proof fn models_are_delivered(
    session: ModelsSession,
    event: ModelsEvent,
    then: ModelsSession,
    directive: ModelsDirective,
)
    requires
        session.well_formed(),
        session.accepts(event),
        session.leads_to(event, then, directive),
    ensures
        match event {
            ModelsEvent::Credential { .. } => true,
            ModelsEvent::Refreshed(Ok(_)) => true,
            ModelsEvent::Refreshed(Err(e)) => {
                &&& directive.give_back is None
                &&& directive.action == ModelsAction::Fail(e)
                &&& then.phase() is Over
            },
            ModelsEvent::Unsent { source } => {
                &&& directive.give_back is None
                &&& directive.action matches ModelsAction::Fail(
                    ClewdrError::WreqError { msg, source: why },
                ) && msg == "Failed to fetch models from OpenAI" && why == source
                &&& then.phase() is Over
            },
            ModelsEvent::Head { status, headers } => {
                &&& directive.give_back matches Some(back) && Some(back.credential)
                    == session.state().credential && back.reason is None
                &&& directive.action is Read
                &&& then.phase() == (ModelsPhase::Reading { status, headers })
            },
            ModelsEvent::Body(Ok(body)) => {
                &&& directive.give_back is None
                &&& directive.action matches ModelsAction::Deliver(
                    Relayed::Whole { status, headers, body: passed },
                ) && (session.phase() matches ModelsPhase::Reading { status: came, headers: all }
                    && status == came && headers@ == relayed_headers(all@) && passed == body)
                &&& then.phase() is Over
            },
            ModelsEvent::Body(Err(source)) => {
                &&& directive.give_back is None
                &&& directive.action matches ModelsAction::Fail(
                    ClewdrError::WreqError { msg, source: why },
                ) && msg == "Failed to read models response" && why == source
                &&& then.phase() is Over
            },
        },
{
    if let ModelsPhase::Reading { status, headers } = session.phase() {
        filters_agree(
            headers@,
            |header: Header| !stale(header.name@),
            |header: Header|
                header.name@ != "transfer-encoding"@ && header.name@ != "content-encoding"@
                    && header.name@ != "content-length"@,
        );
    }
}

/// A session for the list of models takes what its phase waits for, and a step
/// of it is what its event leads to, for the same endpoint and query.
pub proof fn models_sessions_take_what_they_wait_for(
    session: ModelsSession,
    event: ModelsEvent,
    next: (ModelsSession, ModelsDirective),
)
    requires
        call_ensures(ModelsSession::step, (session, event), next),
    ensures
        session.leads_to(event, next.0, next.1),
        next.0.query() == session.query(),
        next.0.state().endpoint == session.state().endpoint,
        session.accepts(event) <==> match event {
            ModelsEvent::Credential { .. } => session.phase() is Asking,
            ModelsEvent::Refreshed(_) => session.phase() is Refreshing,
            ModelsEvent::Unsent { .. } => session.phase() is Sending || session.phase() is Overlong,
            ModelsEvent::Head { .. } => session.phase() is Sending,
            ModelsEvent::Body(_) => session.phase() is Reading,
        },
{
}

/// A session for the list of models starts at the base of its provider, with the
/// query that was asked for and no credential.
pub proof fn models_sessions_start_from_their_query(
    base: String,
    made: CodexProvider,
    provider: CodexProvider,
    query: &str,
    start: (ModelsSession, ModelsAction),
)
    requires
        call_ensures(CodexProvider::new, (base,), made),
        call_ensures(CodexProvider::fetch_models, (&provider, query), start),
    ensures
        made.base == base,
        start.0.state().endpoint == provider.base,
        start.0.state().credential is None,
        start.0.query() == query@,
        start.0.phase() is Asking,
        start.1 is RequestCredential,
{
}

/// The URLs below a base are those that `url` joins, for `responses` and for
/// `api/bootstrap`.
pub proof fn urls_are_joined_to_their_base(
    base: &str,
    responses: Option<String>,
    bootstrap: Option<String>,
)
    requires
        call_ensures(responses_url, (base,), responses),
        call_ensures(bootstrap_url, (base,), bootstrap),
    ensures
        base@.len() <= 0x7fff_ffff ==> {
            &&& match responses {
                Some(url) => url_joined(base@, "responses"@) == Some(url@),
                None => url_joined(base@, "responses"@) is None,
            }
            &&& match bootstrap {
                Some(url) => url_joined(base@, "api/bootstrap"@) == Some(url@),
                None => url_joined(base@, "api/bootstrap"@) is None,
            }
        },
{
}

/// The models URL is `models` below the base, with the caller's query where
/// there is one; a query that names a client version is left as it is, and to
/// any other the version 1.0.0 is added.
pub proof fn the_models_url_carries_query_and_version(
    base: &str,
    query: &str,
    url: ModelsUrl,
    joined: Seq<char>,
    asked: Seq<char>,
    names: Seq<Seq<char>>,
    longer: Seq<char>,
)
    requires
        call_ensures(models_url, (base, query), url),
    ensures
        ({
            &&& base@.len() <= 65534
            &&& url_joined(base@, "models"@) == Some(joined)
            &&& joined.len() <= 65534
            &&& if query@.len() == 0 {
                asked == joined
            } else {
                query@.len() <= 65534 && url_with_query(joined, query@) == Some(asked)
            }
            &&& asked.len() <= 65534
            &&& url_query_names(asked) == Some(names)
        }) ==> if names.contains("client_version"@) {
            url matches ModelsUrl::Url(text) && text@ == asked
        } else {
            &&& url matches ModelsUrl::Url(text) ==> Some(text@) == url_with_pair(
                asked,
                "client_version"@,
                "1.0.0"@,
            )
            &&& ({
                &&& url_with_pair(asked, "client_version"@, "1.0.0"@) == Some(longer)
                &&& longer.len() <= 65534
                &&& url_query_names(longer) is Some
            }) ==> url is Url
        },
        base@.len() <= 65534 && url_joined(base@, "models"@) is None ==> url is NoBase,
        url matches ModelsUrl::Url(text) ==> (url_query_names(text@) matches Some(after)
            && after.contains("client_version"@)),
        url@ == models_url_text(base@, query@),
{
    query_len_within(query@);
}

/// Whether a list of names has the client version is whether it is in the list.
pub proof fn the_client_version_is_looked_for_by_name(names: Vec<String>, found: bool)
    requires
        call_ensures(names_client_version, (&names,), found),
    ensures
        found <==> exists|i: int| 0 <= i < names@.len() && names@[i]@ == "client_version"@,
{
    let views = texts(names@);
    assert(forall|i: int| 0 <= i < names@.len() ==> views[i] == names@[i]@);
    if exists|i: int| 0 <= i < names@.len() && names@[i]@ == "client_version"@ {
        let i = choose|i: int| 0 <= i < names@.len() && names@[i]@ == "client_version"@;
        assert(views[i] == "client_version"@);
    }
    if views.contains("client_version"@) {
        let i = choose|i: int| 0 <= i < views.len() && views[i] == "client_version"@;
        assert(names@[i]@ == "client_version"@);
    }
}

/// The length of a query counts every character but tabs and line breaks.
pub proof fn query_lengths_leave_out_breaks(query: Seq<char>)
    ensures
        query_len(query) == query.filter(
            |c: char| c != '\t' && c != '\n' && c != '\r',
        ).len(),
    decreases query.len(),
{
    reveal(Seq::filter);
    if query.len() > 0 {
        query_lengths_leave_out_breaks(query.drop_last());
    }
}

proof fn query_len_within(query: Seq<char>)
    ensures
        query_len(query) <= query.len(),
    decreases query.len(),
{
    if query.len() > 0 {
        query_len_within(query.drop_last());
    }
}

} // verus!
