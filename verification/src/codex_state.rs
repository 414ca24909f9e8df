//! The state of one request to the backend.
use crate::codex_actor::CodexActorMessage;
use crate::config::{opt_str, opt_text, CodexCredential, CodexTokenInfo};
use crate::error::ClewdrError;
use vstd::prelude::*;

verus! {

/// What a request works with: the credential it was given, and where the
/// backend is.
#[derive(Debug)]
pub struct CodexState {
    pub credential: Option<CodexCredential>,
    pub endpoint: String,
    pub stream: bool,
}

/// Whether the credential at hand can be used.
#[derive(Clone, Copy, Debug, PartialEq, Eq, Structural)]
pub enum CodexTokenStatus {
    /// There is no token.
    Missing,
    /// The token has to be refreshed first.
    Stale,
    Valid,
}

/// A credential on its way back to the pool.
#[derive(Debug)]
pub struct GiveBack {
    pub credential: CodexCredential,
    pub reason: Option<&'static str>,
}

impl GiveBack {
    /// The message that takes the credential back to the pool.
    pub fn into_message(self) -> (message: CodexActorMessage)
        ensures
            message matches CodexActorMessage::Return(credential, reason) && credential
                == self.credential && opt_text(reason) == opt_str(self.reason),
    {
        let reason = match self.reason {
            Some(text) => Some(text.to_owned()),
            None => None,
        };
        CodexActorMessage::Return(self.credential, reason)
    }
}

impl CodexState {
    /// The token of the credential at hand.
    pub open spec fn token(self) -> Option<CodexTokenInfo> {
        match self.credential {
            Some(credential) => credential.token,
            None => None,
        }
    }

    /// The status of the token at hand, if it is known whether a token that
    /// there is has gone stale.
    pub open spec fn token_status(self, stale: bool) -> CodexTokenStatus {
        if self.token() is None {
            CodexTokenStatus::Missing
        } else if stale {
            CodexTokenStatus::Stale
        } else {
            CodexTokenStatus::Valid
        }
    }

    /// What goes back to the pool with a reason: the credential at hand.
    pub open spec fn given_back(self, reason: Option<&'static str>) -> Option<GiveBack> {
        match self.credential {
            Some(credential) => Some(GiveBack { credential, reason }),
            None => None,
        }
    }

    /// The same request with another token for the credential at hand.
    pub open spec fn with_token(self, token: CodexTokenInfo) -> CodexState {
        match self.credential {
            Some(credential) => CodexState {
                credential: Some(credential.with_token(token)),
                ..self
            },
            None => self,
        }
    }

    /// A request to the backend at `endpoint` that has no credential yet.
    pub fn new(endpoint: String) -> (state: CodexState)
        ensures
            state == (CodexState { credential: None, endpoint, stream: true }),
    {
        CodexState { credential: None, endpoint, stream: true }
    }

    /// Takes the credential that the pool granted. `client` says whether a
    /// client with the current proxy settings could be built for it, or why
    /// not; the credential is kept either way.
    pub fn request_credential(
        &mut self,
        granted: Result<CodexCredential, ClewdrError>,
        client: Result<(), String>,
    ) -> (result: Result<CodexCredential, ClewdrError>)
        ensures
            final(self).endpoint == old(self).endpoint,
            final(self).stream == old(self).stream,
            match granted {
                Err(e) => result == Err::<CodexCredential, _>(e) && final(self).credential == old(
                    self,
                ).credential,
                Ok(credential) => {
                    &&& final(self).credential == Some(credential)
                    &&& match client {
                        Ok(_) => result == Ok::<_, ClewdrError>(credential),
                        Err(source) => result == Err::<CodexCredential, _>(
                            ClewdrError::WreqError {
                                msg: "Failed to build codex client with new credential",
                                source,
                            },
                        ),
                    }
                },
            },
    {
        match granted {
            Err(e) => Err(e),
            Ok(credential) => {
                self.credential = Some(credential.clone());
                match client {
                    Ok(_) => Ok(credential),
                    Err(source) => Err(
                        ClewdrError::WreqError {
                            msg: "Failed to build codex client with new credential",
                            source,
                        },
                    ),
                }
            },
        }
    }

    /// Gives the credential at hand back, with the reason if something went
    /// wrong.
    pub fn return_credential(&self, reason: Option<&'static str>) -> (back: Option<GiveBack>)
        ensures
            back == self.given_back(reason),
    {
        match &self.credential {
            Some(credential) => Some(GiveBack { credential: credential.clone(), reason }),
            None => None,
        }
    }

    /// The status of the token at hand. `stale` says of a token that there is
    /// whether it has to be refreshed at this time.
    pub fn check_token(&self, stale: bool) -> (status: CodexTokenStatus)
        ensures
            status == self.token_status(stale),
    {
        match &self.credential {
            Some(credential) => match &credential.token {
                Some(_) => if stale {
                    CodexTokenStatus::Stale
                } else {
                    CodexTokenStatus::Valid
                },
                None => CodexTokenStatus::Missing,
            },
            None => CodexTokenStatus::Missing,
        }
    }

    /// The token of the credential at hand.
    pub(crate) fn current_token(&self) -> (token: Option<CodexTokenInfo>)
        ensures
            token == self.token(),
    {
        match &self.credential {
            Some(credential) => match &credential.token {
                Some(token) => Some(token.clone()),
                None => None,
            },
            None => None,
        }
    }

    /// Puts a new token into the credential at hand.
    pub(crate) fn put_token(&mut self, token: CodexTokenInfo)
        ensures
            *final(self) == old(self).with_token(token),
    {
        if let Some(credential) = self.credential.take() {
            self.credential = Some(
                CodexCredential {
                    token: Some(token),
                    account_id: credential.account_id,
                    label: credential.label,
                    reset_time: credential.reset_time,
                },
            );
        }
    }
}

} // verus!
