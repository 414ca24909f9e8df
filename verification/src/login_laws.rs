//! What a login sends, what it makes of the replies, and what it adds to the
//! pool, in so many words.
use crate::actor_handle::CodexActorHandle;
use crate::api::{
    api_codex_login_poll, api_codex_login_start, api_delete_codex_credential,
    api_get_codex_credentials, login_account, login_credential, login_label, CallAction,
    CredentialDeletion, CredentialListing, DeviceCodeLoginResponse, DeviceCodePollRequest,
    LoginAction, LoginEvent, LoginPhase, LoginPoll, LoginStart,
};
use crate::codex_actor::{CodexActorMessage, CodexCredentialInfo};
use crate::codex_state::CodexState;
use crate::config::{CodexCredential, CodexTokenInfo, Timestamp};
use crate::error::{ApiError, ClewdrError};
use crate::exchange::{
    default_interval, deserialize_interval, refreshed, Answer, DeviceCodeResponse,
    DeviceTokenError, PollAnswer, RawDeviceCodeResponse, RefreshTokenResponse, StringOrU64,
    TokenExchangeResponse,
};
use crate::json::{json_document, Json, JsonView};
use crate::jwt::{
    base64_url_decoded, claim_of, claims, extract_jwt_claim, extract_nested_jwt_claim,
    nested_claim_of, payload_of, payload_part, read_claims,
};
use crate::text::{joined, number_read, pieces, trimmed, NumberError};
use crate::text_laws::{pieces_follow_separators, splitting_cuts_at_every_separator};
use crate::wire::{HttpRequest, PayloadView};
use vstd::prelude::*;

verus! {

/// A POST without a bearer token and without headers of its own.
pub open spec fn posts(request: HttpRequest, url: Seq<char>, payload: PayloadView) -> bool {
    &&& request@.method is Post
    &&& request@.url == url
    &&& request@.bearer is None
    &&& request@.headers.len() == 0
    &&& request@.payload == payload
}

/// A device code is asked for with the client id; its authorization is polled
/// for with the two parts of the code; a token is refreshed with its own refresh
/// token.
pub proof fn logins_post_json(
    url: &str,
    client_id: &str,
    device_auth_id: &str,
    user_code: &str,
    current: CodexTokenInfo,
    code: HttpRequest,
    poll: HttpRequest,
    refresh: HttpRequest,
)
    requires
        call_ensures(CodexState::device_code_request, (url, client_id), code),
        call_ensures(CodexState::device_poll_request, (url, device_auth_id, user_code), poll),
        call_ensures(CodexState::token_refresh_request, (url, client_id, &current), refresh),
    ensures
        posts(code, url@, PayloadView::Json(seq![("client_id"@, client_id@)])),
        posts(
            poll,
            url@,
            PayloadView::Json(
                seq![("device_auth_id"@, device_auth_id@), ("user_code"@, user_code@)],
            ),
        ),
        posts(
            refresh,
            url@,
            PayloadView::Json(
                seq![
                    ("client_id"@, client_id@),
                    ("grant_type"@, "refresh_token"@),
                    ("refresh_token"@, current.refresh_token@),
                    ("scope"@, "openid profile email"@),
                ],
            ),
        ),
{
}

/// An authorization code is traded for tokens by a form that names the client,
/// the code, where the browser was sent, and the verifier where there is one.
pub proof fn codes_are_traded_by_form(
    url: &str,
    client_id: &str,
    code: &str,
    verifier: Option<&str>,
    request: HttpRequest,
)
    requires
        call_ensures(CodexState::token_exchange_request, (url, client_id, code, verifier), request),
    ensures
        request@.method is Post,
        request@.url == url@,
        request@.bearer is None,
        request@.headers == seq![("Content-Type"@, "application/x-www-form-urlencoded"@)],
        request@.payload == PayloadView::Form(
            seq![
                ("client_id"@, client_id@),
                ("grant_type"@, "authorization_code"@),
                ("code"@, code@),
                ("redirect_uri"@, "https://auth.openai.com/deviceauth/callback"@),
            ] + match verifier {
                Some(text) => seq![("code_verifier"@, text@)],
                None => Seq::empty(),
            },
        ),
{
    let form = request@.payload->Form_0;
    assert(form =~= seq![
        ("client_id"@, client_id@),
        ("grant_type"@, "authorization_code"@),
        ("code"@, code@),
        ("redirect_uri"@, "https://auth.openai.com/deviceauth/callback"@),
    ] + match verifier {
        Some(text) => seq![("code_verifier"@, text@)],
        None => Seq::empty(),
    });
}

/// The result is an error of the client with this message and its words.
pub open spec fn client_error<T>(
    result: Result<T, ClewdrError>,
    message: &'static str,
    words: String,
) -> bool {
    result matches Err(ClewdrError::WreqError { msg, source }) && msg == message && source == words
}

/// The result is a refusal with this message.
pub open spec fn refusal_with<T>(result: Result<T, ClewdrError>, message: &'static str) -> bool {
    result matches Err(ClewdrError::BadRequest { msg }) && msg == message
}

/// A device code is the one that came, to be entered at the address given; a
/// request that was not sent, a status other than 200 to 299 and a body that
/// cannot be read each have their error.
pub proof fn device_codes_are_as_they_came(
    address: &str,
    answer: Answer<RawDeviceCodeResponse>,
    result: Result<DeviceCodeResponse, ClewdrError>,
)
    requires
        call_ensures(CodexState::request_device_code, (address, answer), result),
    ensures
        match answer {
            Answer::Unsent { source } => client_error(
                result,
                "Failed to request device code",
                source,
            ),
            Answer::Replied { status, body } => if status < 200 || status > 299 {
                refusal_with(result, "Failed to get device code from OpenAI")
            } else {
                match body {
                    Err(source) => client_error(
                        result,
                        "Failed to parse device code response",
                        source,
                    ),
                    Ok(raw) => result matches Ok(code) && {
                        &&& code.verification_url@ == address@
                        &&& code.user_code == raw.user_code
                        &&& code.device_auth_id == raw.device_auth_id
                        &&& code.interval == raw.interval
                    },
                }
            },
        },
{
}

/// A poll that succeeds gives the code, verifier and challenge that came. One
/// that is refused ends the login where the backend says `expired_token` or
/// `access_denied`, and is undecided in any other case.
pub proof fn polls_are_told_apart(
    answer: PollAnswer,
    result: Result<Option<(String, Option<String>, Option<String>)>, ClewdrError>,
)
    requires
        call_ensures(CodexState::poll_device_code_once, (answer,), result),
    ensures
        match answer {
            PollAnswer::Unsent { source } => client_error(
                result,
                "Failed to poll device token",
                source,
            ),
            PollAnswer::Replied { status, token, error } => if 200 <= status <= 299 {
                match token {
                    Some(came) => result matches Ok(Some((code, verifier, challenge))) && {
                        &&& code == came.authorization_code
                        &&& verifier == came.code_verifier
                        &&& challenge == came.code_challenge
                    },
                    None => refusal_with(result, "Failed to parse device token response"),
                }
            } else {
                match error {
                    Some(DeviceTokenError { error: Some(code) }) => if code@
                        == "expired_token"@ {
                        refusal_with(result, "Device code expired")
                    } else if code@ == "access_denied"@ {
                        refusal_with(result, "Device code access denied by user")
                    } else {
                        result matches Ok(None)
                    },
                    _ => result matches Ok(None),
                }
            },
        },
        match answer {
            PollAnswer::Replied { status, error: Some(reply), .. } => {
                &&& status < 200 || status > 299
                &&& reply.error is Some
                &&& reply.error->0@ == "authorization_pending"@ || reply.error->0@ == "slow_down"@
            },
            _ => false,
        } ==> result matches Ok(None),
{
    reveal_strlit("authorization_pending");
    reveal_strlit("slow_down");
    reveal_strlit("expired_token");
    reveal_strlit("access_denied");
    assert("slow_down"@.len() == 9 && "authorization_pending"@.len() == 21);
    assert("expired_token"@.len() == 13 && "access_denied"@.len() == 13);
}

/// The tokens of a login are those that came, as of the time given.
pub proof fn exchanged_tokens_are_as_they_came(
    answer: Answer<TokenExchangeResponse>,
    now: Timestamp,
    result: Result<CodexTokenInfo, ClewdrError>,
)
    requires
        call_ensures(CodexState::exchange_code_for_tokens, (answer, now), result),
    ensures
        match answer {
            Answer::Unsent { source } => client_error(
                result,
                "Failed to exchange code for tokens",
                source,
            ),
            Answer::Replied { status, body } => if status < 200 || status > 299 {
                refusal_with(result, "Failed to exchange authorization code for tokens")
            } else {
                match body {
                    Err(source) => client_error(
                        result,
                        "Failed to parse token exchange response",
                        source,
                    ),
                    Ok(came) => result matches Ok(token) && {
                        &&& token.access_token == came.access_token
                        &&& token.refresh_token == came.refresh_token
                        &&& token.id_token == came.id_token
                        &&& token.last_refresh == now
                    },
                }
            },
        },
{
}

/// A refreshed token has the access token that came, as of the time given; the
/// refresh token and the id token that came, or where none did those of before.
pub proof fn refreshed_tokens_are_as_they_came(
    current: CodexTokenInfo,
    answer: Answer<RefreshTokenResponse>,
    now: Timestamp,
    result: Result<CodexTokenInfo, ClewdrError>,
)
    requires
        call_ensures(CodexState::refresh_token, (&current, answer, now), result),
    ensures
        match answer {
            Answer::Unsent { source } => client_error(
                result,
                "Failed to refresh codex token",
                source,
            ),
            Answer::Replied { status, body } => if status < 200 || status > 299 {
                refusal_with(result, "Failed to refresh codex token - re-login required")
            } else {
                match body {
                    Err(source) => client_error(
                        result,
                        "Failed to parse refresh token response",
                        source,
                    ),
                    Ok(came) => result matches Ok(token) && {
                        &&& token.access_token == came.access_token
                        &&& match came.refresh_token {
                            Some(new) => token.refresh_token == new,
                            None => token.refresh_token == current.refresh_token,
                        }
                        &&& match came.id_token {
                            Some(new) => token.id_token == Some(new),
                            None => token.id_token == current.id_token,
                        }
                        &&& token.last_refresh == now
                        &&& token == refreshed(current, came, now)
                    },
                }
            },
        },
{
}

/// An interval is the number that came, or the number that the trimmed text
/// reads as; where it reads as none, the words say why. Without an interval it
/// is five seconds.
pub proof fn intervals_are_read_off(raw: StringOrU64, interval: Result<u64, String>, seconds: u64)
    requires
        call_ensures(deserialize_interval, (raw,), interval),
        call_ensures(default_interval, (), seconds),
    ensures
        seconds == 5,
        match raw {
            StringOrU64::Num(n) => interval matches Ok(read) && read == n,
            StringOrU64::Str(text) => match number_read(trimmed(text@)) {
                Ok(n) => interval matches Ok(read) && read == n,
                Err(NumberError::Empty) => interval matches Err(words) && words@
                    == "invalid interval string: "@ + "cannot parse integer from empty string"@,
                Err(NumberError::InvalidDigit) => interval matches Err(words) && words@
                    == "invalid interval string: "@ + "invalid digit found in string"@,
                Err(NumberError::TooLarge) => interval matches Err(words) && words@
                    == "invalid interval string: "@ + "number too large to fit in target type"@,
            },
        },
{
}

/// A token has claims where it is made of three parts between dots, the middle
/// one of which decodes to a JSON document: that document.
pub proof fn claims_stand_in_the_middle(
    head: Seq<char>,
    payload: Seq<char>,
    signature: Seq<char>,
)
    requires
        !head.contains('.'),
        !payload.contains('.'),
        !signature.contains('.'),
    ensures
        ({
            let token = head + seq!['.'] + payload + seq!['.'] + signature;
            &&& payload_part(token) == Some(payload)
            &&& claims(token) == match base64_url_decoded(payload) {
                Some(bytes) => match json_document(bytes) {
                    Ok(document) => Some(document),
                    Err(_) => None,
                },
                None => None,
            }
        }),
{
    pieces_follow_separators(Seq::empty(), head, '.');
    pieces_follow_separators(head, payload, '.');
    pieces_follow_separators(head + seq!['.'] + payload, signature, '.');
    let token = head + seq!['.'] + payload + seq!['.'] + signature;
    assert(token =~= (head + seq!['.'] + payload) + seq!['.'] + signature);
    assert(pieces(token, '.') =~= seq![head, payload, signature]);
}

/// A token that is not made of three parts between dots has no claims.
pub proof fn other_tokens_have_no_claims(token: Seq<char>)
    ensures
        claims(token) is Some ==> payload_part(token) is Some,
        payload_part(token) matches Some(payload) ==> exists|head: Seq<char>, signature: Seq<char>|
            #![trigger head + seq!['.'] + payload + seq!['.'] + signature]
            {
                &&& token == head + seq!['.'] + payload + seq!['.'] + signature
                &&& !head.contains('.')
                &&& !payload.contains('.')
                &&& !signature.contains('.')
            },
{
    splitting_cuts_at_every_separator(token, '.');
    if let Some(payload) = payload_part(token) {
        let parts = pieces(token, '.');
        assert(parts =~= seq![parts[0], payload, parts[2]]);
        assert(parts.drop_last().drop_last() =~= seq![parts[0]]);
        reveal_with_fuel(joined, 4);
        assert(token =~= parts[0] + seq!['.'] + payload + seq!['.'] + parts[2]);
        assert(!parts[0].contains('.') && !parts[1].contains('.') && !parts[2].contains('.'));
    }
}

/// The text of a member of a document.
pub open spec fn member_text(document: JsonView, name: Seq<char>) -> Option<Seq<char>> {
    match document.get(name) {
        Some(JsonView::Text(text)) => Some(text),
        _ => None,
    }
}

/// A text that was found, or none.
pub open spec fn found_text(found: Option<String>, text: Option<Seq<char>>) -> bool {
    match text {
        Some(t) => found matches Some(f) && f@ == t,
        None => found is None,
    }
}

/// A claim is the text of the member of that name among the claims of a token,
/// or inside another member of them; there is none in any other case.
pub proof fn claims_are_read_by_name(
    token: &str,
    path: &str,
    claim: &str,
    top: Option<String>,
    nested: Option<String>,
)
    requires
        call_ensures(extract_jwt_claim, (token, claim), top),
        call_ensures(extract_nested_jwt_claim, (token, path, claim), nested),
    ensures
        found_text(
            top,
            match claims(token@) {
                Some(document) => member_text(document, claim@),
                None => None,
            },
        ),
        found_text(
            nested,
            match claims(token@) {
                Some(document) => match document.get(path@) {
                    Some(inner) => member_text(inner, claim@),
                    None => None,
                },
                None => None,
            },
        ),
{
}

/// The same of claims that have been read, and of reading them.
pub proof fn claims_that_were_read(
    token: &str,
    document: Json,
    path: &str,
    claim: &str,
    top: Option<String>,
    nested: Option<String>,
    part: Option<String>,
    read: Option<Json>,
)
    requires
        call_ensures(claim_of, (&document, claim), top),
        call_ensures(nested_claim_of, (&document, path, claim), nested),
        call_ensures(payload_of, (token,), part),
        call_ensures(read_claims, (token,), read),
    ensures
        found_text(top, member_text(document@, claim@)),
        found_text(
            nested,
            match document@.get(path@) {
                Some(inner) => member_text(inner, claim@),
                None => None,
            },
        ),
        found_text(part, payload_part(token@)),
        match claims(token@) {
            Some(found) => read matches Some(json) && json@ == found,
            None => read is None,
        },
{
}

/// The label of a login is the `email` that its id token claims, and its account
/// the `chatgpt_account_id` that its access token claims below
/// `https://api.openai.com/auth`.
pub proof fn logins_are_named_by_their_tokens(token: CodexTokenInfo)
    ensures
        login_label(token) == match token.id_token {
            Some(id_token) => match claims(id_token@) {
                Some(document) => member_text(document, "email"@),
                None => None,
            },
            None => None,
        },
        login_account(token) == match claims(token.access_token@) {
            Some(document) => match document.get("https://api.openai.com/auth"@) {
                Some(inner) => member_text(inner, "chatgpt_account_id"@),
                None => None,
            },
            None => None,
        },
{
}

/// The credential is that of a login with this token: it holds the token as it
/// is, is named by it, and has no reset time.
pub open spec fn is_login_with(credential: CodexCredential, token: CodexTokenInfo) -> bool {
    &&& credential.token matches Some(kept) && {
        &&& kept.access_token == token.access_token
        &&& kept.refresh_token == token.refresh_token
        &&& kept.id_token == token.id_token
        &&& kept.last_refresh == token.last_refresh
    }
    &&& found_text(credential.label, login_label(token))
    &&& found_text(credential.account_id, login_account(token))
    &&& credential.reset_time is None
}

/// A login makes a credential that holds the tokens that were received, each as
/// it came.
pub proof fn a_login_keeps_its_tokens(token: CodexTokenInfo, credential: CodexCredential)
    requires
        call_ensures(login_credential, (token,), credential),
    ensures
        is_login_with(credential, token),
{
}

/// A poll that was granted trades the code that came for tokens, with the
/// verifier that came; the tokens that come are submitted as they are; and once
/// the pool took them the login is complete under its label. A poll that was
/// not decided is pending, and each failure has its reply.
pub proof fn a_login_follows_its_course(
    poll: LoginPoll,
    event: LoginEvent,
    then: LoginPoll,
    action: LoginAction,
)
    requires
        poll.accepts(event),
        poll.leads_to(event, then, action),
    ensures
        match event {
            LoginEvent::Polled(Ok(Some((code, verifier, _)))) => {
                &&& action matches LoginAction::Exchange { authorization_code, code_verifier }
                    && authorization_code == code && code_verifier == verifier
                &&& then.phase() is Exchanging
            },
            LoginEvent::Polled(Ok(None)) => {
                &&& action matches LoginAction::Reply(Ok(reply)) && reply.status@ == "pending"@
                    && reply.label is None
                &&& then.phase() is Over
            },
            LoginEvent::Polled(Err(why)) => {
                &&& action matches LoginAction::Reply(Err(ApiError::BadRequest(words))) && words
                    == why
                &&& then.phase() is Over
            },
            LoginEvent::Exchanged(Ok(token)) => {
                &&& action matches LoginAction::Submit(credential) && is_login_with(
                    credential,
                    token,
                )
                &&& then.phase() matches LoginPhase::Submitting(label) && found_text(
                    label,
                    login_label(token),
                )
            },
            LoginEvent::Exchanged(Err(why)) => {
                &&& action matches LoginAction::Reply(Err(ApiError::Internal(words))) && words@
                    == "Token exchange failed: "@ + why@
                &&& then.phase() is Over
            },
            LoginEvent::Submitted(Ok(_)) => {
                &&& action matches LoginAction::Reply(Ok(reply)) && reply.status@ == "complete"@
                    && (poll.phase() matches LoginPhase::Submitting(label) && match label {
                    Some(text) => reply.label matches Some(shown) && shown@ == text@,
                    None => reply.label is None,
                })
                &&& then.phase() is Over
            },
            LoginEvent::Submitted(Err(_)) => {
                &&& action matches LoginAction::Reply(Err(ApiError::Internal(words))) && words@
                    == "Failed to save credential"@
                &&& then.phase() is Over
            },
        },
        poll.accepts(event) <==> match event {
            LoginEvent::Polled(_) => poll.phase() is Polling,
            LoginEvent::Exchanged(_) => poll.phase() is Exchanging,
            LoginEvent::Submitted(_) => poll.phase() is Submitting,
        },
{
}

/// A poll by the administrator begins by polling for what was asked; anyone
/// else's is over with the reply that they are not authorized. A step of it is
/// what its event leads to.
pub proof fn polls_are_the_administrators(
    authorized: bool,
    request: DeviceCodePollRequest,
    start: (LoginPoll, LoginAction),
    poll: LoginPoll,
    event: LoginEvent,
    next: (LoginPoll, LoginAction),
)
    requires
        call_ensures(api_codex_login_poll, (authorized, request), start),
        call_ensures(LoginPoll::step, (poll, event), next),
    ensures
        poll.leads_to(event, next.0, next.1),
        if authorized {
            &&& start.0.phase() is Polling
            &&& start.1 matches LoginAction::Poll(asked) && asked.device_auth_id
                == request.device_auth_id && asked.user_code == request.user_code
        } else {
            &&& start.0.phase() is Over
            &&& start.1 matches LoginAction::Reply(Err(ApiError::Unauthorized))
        },
{
}

/// The administrator's calls ask for a device code, for the listing, and for the
/// deletion of the credential given; anyone else's ask for nothing, and are told
/// that they are not authorized.
pub proof fn calls_are_the_administrators(
    authorized: bool,
    cred: CodexCredential,
    login: (LoginStart, CallAction<DeviceCodeLoginResponse>),
    listing: (CredentialListing, CallAction<CodexCredentialInfo>),
    deletion: (CredentialDeletion, CallAction<u16>),
)
    requires
        call_ensures(api_codex_login_start, (authorized,), login),
        call_ensures(api_get_codex_credentials, (authorized,), listing),
        call_ensures(api_delete_codex_credential, (authorized, cred), deletion),
    ensures
        login.0.waiting() <==> authorized,
        listing.0.waiting() <==> authorized,
        deletion.0.waiting() <==> authorized,
        if authorized {
            &&& login.1 is RequestDeviceCode
            &&& listing.1 matches CallAction::Ask(message) && message is GetStatus
            &&& deletion.1 matches CallAction::Ask(CodexActorMessage::Delete(asked)) && asked
                == cred
        } else {
            &&& login.1 matches CallAction::Reply(Err(ApiError::Unauthorized))
            &&& listing.1 matches CallAction::Reply(Err(ApiError::Unauthorized))
            &&& deletion.1 matches CallAction::Reply(Err(ApiError::Unauthorized))
        },
{
}

/// The replies to the calls show what came of the work, or say in what it failed
/// and why.
pub proof fn replies_tell_what_came(
    login: LoginStart,
    code: Result<DeviceCodeResponse, String>,
    login_reply: Result<DeviceCodeLoginResponse, ApiError>,
    listing: CredentialListing,
    status: Result<CodexCredentialInfo, String>,
    listing_reply: Result<CodexCredentialInfo, ApiError>,
    deletion: CredentialDeletion,
    deleted: Result<(), String>,
    deletion_reply: Result<u16, ApiError>,
)
    requires
        call_ensures(LoginStart::step, (login, code), login_reply),
        call_ensures(CredentialListing::step, (listing, status), listing_reply),
        call_ensures(CredentialDeletion::step, (deletion, deleted), deletion_reply),
    ensures
        match code {
            Ok(came) => login_reply matches Ok(shown) && {
                &&& shown.verification_url == came.verification_url
                &&& shown.user_code == came.user_code
                &&& shown.device_auth_id == came.device_auth_id
                &&& shown.interval == came.interval
            },
            Err(why) => login_reply matches Err(ApiError::Internal(words)) && words@
                == "Failed to start device code login: "@ + why@,
        },
        match status {
            Ok(came) => listing_reply matches Ok(shown) && shown.valid@ == came.valid@
                && shown.exhausted@ == came.exhausted@,
            Err(why) => listing_reply matches Err(ApiError::Internal(words)) && words@
                == "Failed to get codex credentials: "@ + why@,
        },
        match deleted {
            Ok(_) => deletion_reply matches Ok(shown) && shown == 204,
            Err(why) => deletion_reply matches Err(ApiError::Internal(words)) && words@
                == "Failed to delete credential: "@ + why@,
        },
{
}

/// The words for a pool that could not be reached.
pub open spec fn out_of_reach<T>(
    result: Result<T, ClewdrError>,
    operation: Seq<char>,
    why: Seq<char>,
) -> bool {
    result matches Err(ClewdrError::RactorError { detail }) && detail@
        == "Failed to communicate with CodexActor for "@ + operation + " operation: "@ + why
}

/// What the pool replied is handed on as it is; where it could not be reached,
/// the words name the operation and the reason.
pub proof fn the_pools_replies_are_handed_on(
    request: Result<Result<CodexCredential, ClewdrError>, String>,
    requested: Result<CodexCredential, ClewdrError>,
    delete: Result<Result<(), ClewdrError>, String>,
    deleted: Result<(), ClewdrError>,
    status: Result<CodexCredentialInfo, String>,
    listed: Result<CodexCredentialInfo, ClewdrError>,
    sent: Result<(), String>,
    returned: Result<(), ClewdrError>,
    submitted: Result<(), ClewdrError>,
)
    requires
        call_ensures(CodexActorHandle::request, (request,), requested),
        call_ensures(CodexActorHandle::delete_credential, (delete,), deleted),
        call_ensures(CodexActorHandle::get_status, (status,), listed),
        call_ensures(CodexActorHandle::return_credential, (sent,), returned),
        call_ensures(CodexActorHandle::submit, (sent,), submitted),
    ensures
        match request {
            Ok(reply) => requested == reply,
            Err(why) => out_of_reach(requested, "request"@, why@),
        },
        match delete {
            Ok(reply) => deleted == reply,
            Err(why) => out_of_reach(deleted, "delete"@, why@),
        },
        match status {
            Ok(info) => listed matches Ok(shown) && shown == info,
            Err(why) => out_of_reach(listed, "get status"@, why@),
        },
        match sent {
            Ok(_) => returned is Ok && submitted is Ok,
            Err(why) => out_of_reach(returned, "return"@, why@) && out_of_reach(
                submitted,
                "submit"@,
                why@,
            ),
        },
{
}

} // verus!
