//! What the users of the pool make of its replies, or of its silence.
use crate::codex_actor::CodexCredentialInfo;
use crate::config::CodexCredential;
use crate::error::ClewdrError;
use vstd::prelude::*;

verus! {

/// The pool could not be reached for an operation.
pub open spec fn unreachable_for(error: ClewdrError, operation: Seq<char>, why: Seq<char>) -> bool {
    error matches ClewdrError::RactorError { detail } && detail@
        == "Failed to communicate with CodexActor for "@ + operation + " operation: "@ + why
}

fn out_of_reach(operation: &str, why: &str) -> (error: ClewdrError)
    ensures
        unreachable_for(error, operation@, why@),
{
    let mut detail = "Failed to communicate with CodexActor for ".to_owned();
    detail.append(operation);
    detail.append(" operation: ");
    detail.append(why);
    ClewdrError::RactorError { detail }
}

/// The way to the pool. Each operation is given what came back, or in words why
/// nothing did.
pub struct CodexActorHandle;

impl CodexActorHandle {
    /// A credential of the pool, or its error.
    pub fn request(answer: Result<Result<CodexCredential, ClewdrError>, String>) -> (result: Result<
        CodexCredential,
        ClewdrError,
    >)
        ensures
            match answer {
                Ok(reply) => result == reply,
                Err(why) => result matches Err(e) && unreachable_for(e, "request"@, why@),
            },
    {
        match answer {
            Ok(reply) => reply,
            Err(why) => Err(out_of_reach("request", why.as_str())),
        }
    }

    /// Whether a credential was sent back.
    pub fn return_credential(sent: Result<(), String>) -> (result: Result<(), ClewdrError>)
        ensures
            match sent {
                Ok(_) => result == Ok::<(), ClewdrError>(()),
                Err(why) => result matches Err(e) && unreachable_for(e, "return"@, why@),
            },
    {
        match sent {
            Ok(_) => Ok(()),
            Err(why) => Err(out_of_reach("return", why.as_str())),
        }
    }

    /// Whether a credential was sent to be added.
    pub fn submit(sent: Result<(), String>) -> (result: Result<(), ClewdrError>)
        ensures
            match sent {
                Ok(_) => result == Ok::<(), ClewdrError>(()),
                Err(why) => result matches Err(e) && unreachable_for(e, "submit"@, why@),
            },
    {
        match sent {
            Ok(_) => Ok(()),
            Err(why) => Err(out_of_reach("submit", why.as_str())),
        }
    }

    /// The listing of the pool.
    pub fn get_status(answer: Result<CodexCredentialInfo, String>) -> (result: Result<
        CodexCredentialInfo,
        ClewdrError,
    >)
        ensures
            match answer {
                Ok(info) => result == Ok::<_, ClewdrError>(info),
                Err(why) => result matches Err(e) && unreachable_for(e, "get status"@, why@),
            },
    {
        match answer {
            Ok(info) => Ok(info),
            Err(why) => Err(out_of_reach("get status", why.as_str())),
        }
    }

    /// Whether a credential was deleted, or the pool's error.
    pub fn delete_credential(answer: Result<Result<(), ClewdrError>, String>) -> (result: Result<
        (),
        ClewdrError,
    >)
        ensures
            match answer {
                Ok(reply) => result == reply,
                Err(why) => result matches Err(e) && unreachable_for(e, "delete"@, why@),
            },
    {
        match answer {
            Ok(reply) => reply,
            Err(why) => Err(out_of_reach("delete", why.as_str())),
        }
    }
}

} // verus!
