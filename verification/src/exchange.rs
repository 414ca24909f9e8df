//! The device code login: asking for a code, polling for its authorization,
//! and trading it for tokens, which are later refreshed.
//!
//! Each step is a request to be sent and a judgement on what came back.
use crate::codex_state::CodexState;
use crate::config::{clone_opt_string, opt_str, CodexTokenInfo, Timestamp};
use crate::error::ClewdrError;
use crate::text::{number_read, parse_number, trim, trimmed, NumberError};
use crate::wire::{
    field, fields, is_success, success, Field, HttpRequest, HttpRequestView, Method, Payload, PayloadView,
};
use vstd::prelude::*;

verus! {

/// What came back of a request whose reply is read as a `T`.
#[derive(Debug)]
pub enum Answer<T> {
    /// The request could not be sent.
    Unsent { source: String },
    /// A reply came. Its body is a `T`, or the reason why it is not.
    Replied { status: u16, body: Result<T, String> },
}

/// What came back of a poll. The body is read both ways.
#[derive(Debug)]
pub enum PollAnswer {
    /// The poll could not be sent.
    Unsent { source: String },
    /// A reply came.
    Replied { status: u16, token: Option<DeviceTokenResponse>, error: Option<DeviceTokenError> },
}

/// The reply of the endpoint for device codes. It does not say where the code
/// is to be entered.
#[derive(Debug)]
pub struct RawDeviceCodeResponse {
    pub user_code: String,
    pub device_auth_id: String,
    pub interval: u64,
}

/// A device code, with the address at which it is to be entered.
#[derive(Debug)]
pub struct DeviceCodeResponse {
    pub verification_url: String,
    pub user_code: String,
    pub device_auth_id: String,
    pub interval: u64,
}

/// The reply to a poll once the code was authorized.
#[derive(Debug)]
pub struct DeviceTokenResponse {
    pub authorization_code: String,
    pub code_verifier: Option<String>,
    pub code_challenge: Option<String>,
}

/// The reply to a poll that gave no authorization.
#[derive(Debug)]
pub struct DeviceTokenError {
    pub error: Option<String>,
}

/// The tokens for an authorization code.
#[derive(Debug)]
pub struct TokenExchangeResponse {
    pub access_token: String,
    pub refresh_token: String,
    pub id_token: Option<String>,
}

/// The tokens for a refresh token. What is absent stays as it was.
#[derive(Debug)]
pub struct RefreshTokenResponse {
    pub access_token: String,
    pub refresh_token: Option<String>,
    pub id_token: Option<String>,
}

/// A number that may come as a string.
#[derive(Debug)]
pub enum StringOrU64 {
    Num(u64),
    Str(String),
}

/// Seconds between two polls where the endpoint names no interval.
pub fn default_interval() -> (seconds: u64)
    ensures
        seconds == 5,
{
    5
}

/// What is wrong with a number, in words.
pub open spec fn number_error_text(error: NumberError) -> Seq<char> {
    match error {
        NumberError::Empty => "cannot parse integer from empty string"@,
        NumberError::InvalidDigit => "invalid digit found in string"@,
        NumberError::TooLarge => "number too large to fit in target type"@,
    }
}

/// The interval between two polls. The endpoint sends it as a string, with
/// white space around it perhaps, or as a number.
pub fn deserialize_interval(raw: StringOrU64) -> (interval: Result<u64, String>)
    ensures
        match raw {
            StringOrU64::Num(n) => interval == Ok::<u64, String>(n),
            StringOrU64::Str(text) => match number_read(trimmed(text@)) {
                Ok(n) => interval == Ok::<u64, String>(n),
                Err(e) => interval matches Err(message) && message@ == "invalid interval string: "@
                    + number_error_text(e),
            },
        },
{
    match raw {
        StringOrU64::Num(n) => Ok(n),
        StringOrU64::Str(text) => match parse_number(trim(text.as_str())) {
            Ok(n) => Ok(n),
            Err(e) => {
                let reason = match e {
                    NumberError::Empty => "cannot parse integer from empty string",
                    NumberError::InvalidDigit => "invalid digit found in string",
                    NumberError::TooLarge => "number too large to fit in target type",
                };
                Err("invalid interval string: ".to_owned().concat(reason))
            },
        },
    }
}

/// A JSON object of strings, posted to `url`.
pub open spec fn json_post(url: Seq<char>, members: Seq<(Seq<char>, Seq<char>)>) -> HttpRequestView {
    HttpRequestView {
        method: Method::Post,
        url,
        bearer: None,
        headers: Seq::empty(),
        payload: PayloadView::Json(members),
    }
}

/// The address to which the backend sends a browser after a login.
pub open spec fn redirect_uri() -> Seq<char> {
    "https://auth.openai.com/deviceauth/callback"@
}

/// The form that trades an authorization code for tokens.
pub open spec fn exchange_form(
    client_id: Seq<char>,
    authorization_code: Seq<char>,
    code_verifier: Option<Seq<char>>,
) -> Seq<(Seq<char>, Seq<char>)> {
    let form = seq![
        ("client_id"@, client_id),
        ("grant_type"@, "authorization_code"@),
        ("code"@, authorization_code),
        ("redirect_uri"@, redirect_uri()),
    ];
    match code_verifier {
        Some(verifier) => form.push(("code_verifier"@, verifier)),
        None => form,
    }
}

/// The judgement on a poll that was not granted: why the login cannot succeed
/// any more, or that it still may. It may while the backend answers
/// `authorization_pending` or `slow_down`, and after any other answer that does
/// not end it.
pub open spec fn refusal(error: Option<DeviceTokenError>) -> Result<(), ClewdrError> {
    match error {
        Some(DeviceTokenError { error: Some(code) }) => {
            if code@ == "expired_token"@ {
                Err(ClewdrError::BadRequest { msg: "Device code expired" })
            } else if code@ == "access_denied"@ {
                Err(ClewdrError::BadRequest { msg: "Device code access denied by user" })
            } else {
                Ok(())
            }
        },
        _ => Ok(()),
    }
}

fn judge_refusal(error: &Option<DeviceTokenError>) -> (judgement: Result<(), ClewdrError>)
    ensures
        judgement == refusal(*error),
{
    if let Some(reply) = error {
        if let Some(code) = &reply.error {
            if *code == "expired_token".to_owned() {
                return Err(ClewdrError::BadRequest { msg: "Device code expired" });
            }
            if *code == "access_denied".to_owned() {
                return Err(ClewdrError::BadRequest { msg: "Device code access denied by user" });
            }
        }
    }
    Ok(())
}

impl CodexState {
    /// The request for a device code.
    pub fn device_code_request(url: &str, client_id: &str) -> (request: HttpRequest)
        ensures
            request@ == json_post(url@, seq![("client_id"@, client_id@)]),
    {
        let mut members: Vec<Field> = Vec::new();
        members.push(field("client_id", client_id));
        assert(fields(members@) =~= seq![("client_id"@, client_id@)]);
        post_json(url, members)
    }

    /// Step 1 of a login: a device code, to be entered at `verification_url`.
    pub fn request_device_code(
        verification_url: &str,
        answer: Answer<RawDeviceCodeResponse>,
    ) -> (result: Result<DeviceCodeResponse, ClewdrError>)
        ensures
            match answer {
                Answer::Unsent { source } => result == Err::<DeviceCodeResponse, _>(
                    ClewdrError::WreqError { msg: "Failed to request device code", source },
                ),
                Answer::Replied { status, body } => if !success(status) {
                    result == Err::<DeviceCodeResponse, _>(
                        ClewdrError::BadRequest { msg: "Failed to get device code from OpenAI" },
                    )
                } else {
                    match body {
                        Err(source) => result == Err::<DeviceCodeResponse, _>(
                            ClewdrError::WreqError {
                                msg: "Failed to parse device code response",
                                source,
                            },
                        ),
                        Ok(raw) => result matches Ok(code) && {
                            &&& code.verification_url@ == verification_url@
                            &&& code.user_code == raw.user_code
                            &&& code.device_auth_id == raw.device_auth_id
                            &&& code.interval == raw.interval
                        },
                    }
                },
            },
    {
        match answer {
            Answer::Unsent { source } => Err(
                ClewdrError::WreqError { msg: "Failed to request device code", source },
            ),
            Answer::Replied { status, body } => {
                if !is_success(status) {
                    return Err(
                        ClewdrError::BadRequest { msg: "Failed to get device code from OpenAI" },
                    );
                }
                match body {
                    Err(source) => Err(
                        ClewdrError::WreqError {
                            msg: "Failed to parse device code response",
                            source,
                        },
                    ),
                    Ok(raw) => Ok(
                        DeviceCodeResponse {
                            verification_url: verification_url.to_owned(),
                            user_code: raw.user_code,
                            device_auth_id: raw.device_auth_id,
                            interval: raw.interval,
                        },
                    ),
                }
            },
        }
    }

    /// The poll for the authorization of a device code.
    pub fn device_poll_request(url: &str, device_auth_id: &str, user_code: &str) -> (request:
        HttpRequest)
        ensures
            request@ == json_post(
                url@,
                seq![("device_auth_id"@, device_auth_id@), ("user_code"@, user_code@)],
            ),
    {
        let mut members: Vec<Field> = Vec::new();
        members.push(field("device_auth_id", device_auth_id));
        members.push(field("user_code", user_code));
        assert(fields(members@) =~= seq![
            ("device_auth_id"@, device_auth_id@),
            ("user_code"@, user_code@),
        ]);
        post_json(url, members)
    }

    /// Step 2 of a login: one poll. The result is the authorization code with
    /// its verifier and challenge; nothing while the user has not decided; an
    /// error where the login is over. A refusal of an unknown kind counts as
    /// undecided.
    pub fn poll_device_code_once(answer: PollAnswer) -> (result: Result<
        Option<(String, Option<String>, Option<String>)>,
        ClewdrError,
    >)
        ensures
            match answer {
                PollAnswer::Unsent { source } => result == Err::<
                    Option<(String, Option<String>, Option<String>)>,
                    _,
                >(ClewdrError::WreqError { msg: "Failed to poll device token", source }),
                PollAnswer::Replied { status, token, error } => if success(status) {
                    match token {
                        Some(t) => result == Ok::<_, ClewdrError>(
                            Some((t.authorization_code, t.code_verifier, t.code_challenge)),
                        ),
                        None => result == Err::<
                            Option<(String, Option<String>, Option<String>)>,
                            _,
                        >(ClewdrError::BadRequest { msg: "Failed to parse device token response" }),
                    }
                } else {
                    match refusal(error) {
                        Ok(_) => result matches Ok(None),
                        Err(e) => result == Err::<
                            Option<(String, Option<String>, Option<String>)>,
                            _,
                        >(e),
                    }
                },
            },
    {
        match answer {
            PollAnswer::Unsent { source } => Err(
                ClewdrError::WreqError { msg: "Failed to poll device token", source },
            ),
            PollAnswer::Replied { status, token, error } => {
                if is_success(status) {
                    return match token {
                        Some(t) => Ok(
                            Some((t.authorization_code, t.code_verifier, t.code_challenge)),
                        ),
                        None => Err(
                            ClewdrError::BadRequest {
                                msg: "Failed to parse device token response",
                            },
                        ),
                    };
                }
                match judge_refusal(&error) {
                    Ok(_) => Ok(None),
                    Err(e) => Err(e),
                }
            },
        }
    }

    /// The request that trades an authorization code for tokens: a form, not
    /// JSON.
    pub fn token_exchange_request(
        url: &str,
        client_id: &str,
        authorization_code: &str,
        code_verifier: Option<&str>,
    ) -> (request: HttpRequest)
        ensures
            request@ == (HttpRequestView {
                method: Method::Post,
                url: url@,
                bearer: None,
                headers: seq![("Content-Type"@, "application/x-www-form-urlencoded"@)],
                payload: PayloadView::Form(
                    exchange_form(client_id@, authorization_code@, opt_str(code_verifier)),
                ),
            }),
    {
        let mut form: Vec<Field> = Vec::new();
        form.push(field("client_id", client_id));
        form.push(field("grant_type", "authorization_code"));
        form.push(field("code", authorization_code));
        form.push(field("redirect_uri", "https://auth.openai.com/deviceauth/callback"));
        if let Some(verifier) = code_verifier {
            form.push(field("code_verifier", verifier));
        }
        let mut headers: Vec<Field> = Vec::new();
        headers.push(field("Content-Type", "application/x-www-form-urlencoded"));
        let request = HttpRequest {
            method: Method::Post,
            url: url.to_owned(),
            bearer: None,
            headers,
            payload: Payload::Form(form),
        };
        proof {
            assert(fields(headers@) =~= seq![
                ("Content-Type"@, "application/x-www-form-urlencoded"@),
            ]);
            assert(fields(form@) =~= exchange_form(
                client_id@,
                authorization_code@,
                opt_str(code_verifier),
            ));
        }
        request
    }

    /// Step 3 of a login: the tokens for an authorization code, received at
    /// `now`.
    pub fn exchange_code_for_tokens(answer: Answer<TokenExchangeResponse>, now: Timestamp) -> (result:
        Result<CodexTokenInfo, ClewdrError>)
        ensures
            match answer {
                Answer::Unsent { source } => result == Err::<CodexTokenInfo, _>(
                    ClewdrError::WreqError { msg: "Failed to exchange code for tokens", source },
                ),
                Answer::Replied { status, body } => if !success(status) {
                    result == Err::<CodexTokenInfo, _>(
                        ClewdrError::BadRequest {
                            msg: "Failed to exchange authorization code for tokens",
                        },
                    )
                } else {
                    match body {
                        Err(source) => result == Err::<CodexTokenInfo, _>(
                            ClewdrError::WreqError {
                                msg: "Failed to parse token exchange response",
                                source,
                            },
                        ),
                        Ok(tokens) => result == Ok::<_, ClewdrError>(
                            CodexTokenInfo {
                                access_token: tokens.access_token,
                                refresh_token: tokens.refresh_token,
                                id_token: tokens.id_token,
                                last_refresh: now,
                            },
                        ),
                    }
                },
            },
    {
        match answer {
            Answer::Unsent { source } => Err(
                ClewdrError::WreqError { msg: "Failed to exchange code for tokens", source },
            ),
            Answer::Replied { status, body } => {
                if !is_success(status) {
                    return Err(
                        ClewdrError::BadRequest {
                            msg: "Failed to exchange authorization code for tokens",
                        },
                    );
                }
                match body {
                    Err(source) => Err(
                        ClewdrError::WreqError {
                            msg: "Failed to parse token exchange response",
                            source,
                        },
                    ),
                    Ok(tokens) => Ok(
                        CodexTokenInfo {
                            access_token: tokens.access_token,
                            refresh_token: tokens.refresh_token,
                            id_token: tokens.id_token,
                            last_refresh: now,
                        },
                    ),
                }
            },
        }
    }

    /// The request that refreshes a token.
    pub fn token_refresh_request(url: &str, client_id: &str, current: &CodexTokenInfo) -> (request:
        HttpRequest)
        ensures
            request@ == json_post(
                url@,
                seq![
                    ("client_id"@, client_id@),
                    ("grant_type"@, "refresh_token"@),
                    ("refresh_token"@, current.refresh_token@),
                    ("scope"@, "openid profile email"@),
                ],
            ),
    {
        let mut members: Vec<Field> = Vec::new();
        members.push(field("client_id", client_id));
        members.push(field("grant_type", "refresh_token"));
        members.push(field("refresh_token", current.refresh_token.as_str()));
        members.push(field("scope", "openid profile email"));
        assert(fields(members@) =~= seq![
            ("client_id"@, client_id@),
            ("grant_type"@, "refresh_token"@),
            ("refresh_token"@, current.refresh_token@),
            ("scope"@, "openid profile email"@),
        ]);
        post_json(url, members)
    }

    /// The refreshed token, received at `now`. A refresh token or id token
    /// that the reply leaves out is kept from the current one.
    pub fn refresh_token(
        current: &CodexTokenInfo,
        answer: Answer<RefreshTokenResponse>,
        now: Timestamp,
    ) -> (result: Result<CodexTokenInfo, ClewdrError>)
        ensures
            match answer {
                Answer::Unsent { source } => result == Err::<CodexTokenInfo, _>(
                    ClewdrError::WreqError { msg: "Failed to refresh codex token", source },
                ),
                Answer::Replied { status, body } => if !success(status) {
                    result == Err::<CodexTokenInfo, _>(
                        ClewdrError::BadRequest {
                            msg: "Failed to refresh codex token - re-login required",
                        },
                    )
                } else {
                    match body {
                        Err(source) => result == Err::<CodexTokenInfo, _>(
                            ClewdrError::WreqError {
                                msg: "Failed to parse refresh token response",
                                source,
                            },
                        ),
                        Ok(tokens) => result == Ok::<_, ClewdrError>(
                            refreshed(*current, tokens, now),
                        ),
                    }
                },
            },
    {
        match answer {
            Answer::Unsent { source } => Err(
                ClewdrError::WreqError { msg: "Failed to refresh codex token", source },
            ),
            Answer::Replied { status, body } => {
                if !is_success(status) {
                    return Err(
                        ClewdrError::BadRequest {
                            msg: "Failed to refresh codex token - re-login required",
                        },
                    );
                }
                match body {
                    Err(source) => Err(
                        ClewdrError::WreqError {
                            msg: "Failed to parse refresh token response",
                            source,
                        },
                    ),
                    Ok(tokens) => Ok(
                        CodexTokenInfo {
                            access_token: tokens.access_token,
                            refresh_token: match tokens.refresh_token {
                                Some(token) => token,
                                None => current.refresh_token.clone(),
                            },
                            id_token: match tokens.id_token {
                                Some(token) => Some(token),
                                None => clone_opt_string(&current.id_token),
                            },
                            last_refresh: now,
                        },
                    ),
                }
            },
        }
    }
}

/// The token that a refresh makes of `current`.
pub open spec fn refreshed(
    current: CodexTokenInfo,
    tokens: RefreshTokenResponse,
    now: Timestamp,
) -> CodexTokenInfo {
    CodexTokenInfo {
        access_token: tokens.access_token,
        refresh_token: match tokens.refresh_token {
            Some(token) => token,
            None => current.refresh_token,
        },
        id_token: match tokens.id_token {
            Some(token) => Some(token),
            None => current.id_token,
        },
        last_refresh: now,
    }
}

/// Posts a JSON object of strings.
fn post_json(url: &str, members: Vec<Field>) -> (request: HttpRequest)
    ensures
        request@ == json_post(url@, fields(members@)),
{
    let headers: Vec<Field> = Vec::new();
    assert(fields(headers@) =~= Seq::empty());
    HttpRequest {
        method: Method::Post,
        url: url.to_owned(),
        bearer: None,
        headers,
        payload: Payload::Json(members),
    }
}

/// A refresh never loses the means of the next one: the new token can be
/// refreshed with the refresh token of the reply, or else with the old one.
pub proof fn a_refresh_keeps_the_login(
    current: CodexTokenInfo,
    tokens: RefreshTokenResponse,
    now: Timestamp,
)
    ensures
        refreshed(current, tokens, now).refresh_token == current.refresh_token
            || tokens.refresh_token == Some(refreshed(current, tokens, now).refresh_token),
        current.id_token is Some ==> refreshed(current, tokens, now).id_token is Some,
        refreshed(current, tokens, now).access_token == tokens.access_token,
{
}

} // verus!
