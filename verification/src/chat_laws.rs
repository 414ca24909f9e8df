//! What holds of a session over all its attempts.
use crate::chat::{
    backoff, backoff_millis, calls_for_retry, ChatAction, ChatEvent, ChatSession, ChatView,
    Directive, Phase, LAST_WAIT,
};
use crate::codex_actor::{CodexActorMessage, Pool};
use crate::codex_state::{CodexState, GiveBack};
use crate::config::{CodexCredential, CodexTokenInfo};
use crate::error::ClewdrError;
use crate::pool_laws::{
    a_refreshed_token_is_kept, only_submit_and_delete_change_membership,
    returning_keeps_every_credential_in_rotation,
};
use vstd::arithmetic::power2::pow2;
use vstd::prelude::*;

verus! {

/// The events come one after the other, each one waited for by the session.
pub open spec fn follows(session: ChatView, events: Seq<ChatEvent>) -> bool
    decreases events.len(),
{
    events.len() == 0 || {
        &&& session.accepts(events.first())
        &&& follows(session.next(events.first()).0, events.drop_first())
    }
}

/// How often the request is sent in the course of the events.
pub open spec fn times_sent(session: ChatView, events: Seq<ChatEvent>) -> nat
    decreases events.len(),
{
    if events.len() == 0 {
        0
    } else {
        let (then, directive) = session.next(events.first());
        (if directive.action is Forward {
            1nat
        } else {
            0nat
        }) + times_sent(then, events.drop_first())
    }
}

/// How many more events a session can take, at most.
pub open spec fn patience(session: ChatView) -> int {
    5 * (session.max_retries - session.attempt) + match session.phase {
        Phase::Asking => 4int,
        Phase::Refreshing => 3int,
        Phase::Forwarding => 2int,
        Phase::Recovering => 1int,
        Phase::Sleeping => 1int,
        Phase::Over => 0int,
    }
}

/// How often a session may still send its request.
pub open spec fn sends_left(session: ChatView) -> int {
    session.max_retries - session.attempt + match session.phase {
        Phase::Asking => 1int,
        Phase::Refreshing => 1int,
        _ => 0int,
    }
}

/// Every event brings a session closer to its end.
pub proof fn every_event_makes_progress(session: ChatView, event: ChatEvent)
    requires
        session.well_formed(),
        session.accepts(event),
    ensures
        0 <= patience(session.next(event).0) < patience(session),
        session.next(event).0.well_formed(),
{
}

/// A session ends: it takes no more events than its attempts allow for.
pub proof fn sessions_end(session: ChatView, events: Seq<ChatEvent>)
    requires
        session.well_formed(),
        follows(session, events),
    ensures
        events.len() <= patience(session),
    decreases events.len(),
{
    if events.len() > 0 {
        every_event_makes_progress(session, events.first());
        sessions_end(session.next(events.first()).0, events.drop_first());
    }
}

/// A request is sent at most once in each attempt: once, and once more for
/// each retry that is allowed.
pub proof fn requests_are_bounded(session: ChatView, events: Seq<ChatEvent>)
    requires
        session.well_formed(),
        follows(session, events),
    ensures
        times_sent(session, events) <= sends_left(session),
        session.phase is Asking && session.attempt == 0 ==> times_sent(session, events)
            <= session.max_retries + 1,
    decreases events.len(),
{
    if events.len() > 0 {
        every_event_makes_progress(session, events.first());
        requests_are_bounded(session.next(events.first()).0, events.drop_first());
    }
}

/// An error of the backend that calls for no retry is what the client gets,
/// unchanged; one that does is never what the client gets.
pub proof fn only_final_errors_are_answers(session: ChatView, error: ClewdrError)
    requires
        session.phase is Forwarding,
    ensures
        ({
            let (then, directive) = session.next(
                ChatEvent::Forwarded(Err::<(), ClewdrError>(error)),
            );
            if calls_for_retry(error) {
                directive.action is Refresh || directive.action is RequestCredential
                    || directive.action is Sleep || directive.action == ChatAction::Fail(
                    ClewdrError::TooManyRetries,
                )
            } else {
                directive == (Directive { give_back: None, action: ChatAction::Fail(error) })
                    && then.phase is Over
            }
        }),
{
}

/// The session after the events.
pub open spec fn reached(session: ChatView, events: Seq<ChatEvent>) -> ChatView
    decreases events.len(),
{
    if events.len() == 0 {
        session
    } else {
        reached(session.next(events.first()).0, events.drop_first())
    }
}

/// What the last of the events led to.
pub open spec fn last_action(session: ChatView, events: Seq<ChatEvent>) -> ChatAction
    recommends
        events.len() > 0,
    decreases events.len(),
{
    let (then, directive) = session.next(events.first());
    if events.len() <= 1 {
        directive.action
    } else {
        last_action(then, events.drop_first())
    }
}

/// How many further attempts are begun in the course of the events.
pub open spec fn retries_begun(session: ChatView, events: Seq<ChatEvent>) -> nat
    decreases events.len(),
{
    if events.len() == 0 {
        0
    } else {
        let (then, directive) = session.next(events.first());
        let rest = retries_begun(then, events.drop_first());
        if directive.action is RequestCredential {
            rest + 1
        } else {
            rest
        }
    }
}

/// The event makes the attempt fail in a way that calls for another one.
pub open spec fn fails_for_now(session: ChatView, event: ChatEvent) -> bool {
    session.failure(event) matches Some(e) && calls_for_retry(e)
}

/// How many attempts fail, in the course of the events, in a way that calls
/// for another one.
pub open spec fn attempts_failed(session: ChatView, events: Seq<ChatEvent>) -> nat
    decreases events.len(),
{
    if events.len() == 0 {
        0
    } else {
        let rest = attempts_failed(session.next(events.first()).0, events.drop_first());
        if fails_for_now(session, events.first()) {
            rest + 1
        } else {
            rest
        }
    }
}

/// The work outside failed for too many retries of its own.
pub open spec fn gave_up_outside(event: ChatEvent) -> bool {
    match event {
        ChatEvent::Credential { granted, .. } => granted == Err::<CodexCredential, _>(
            ClewdrError::TooManyRetries,
        ),
        ChatEvent::Refreshed(result) => result == Err::<CodexTokenInfo, _>(
            ClewdrError::TooManyRetries,
        ),
        ChatEvent::Forwarded(result) => result == Err::<(), _>(ClewdrError::TooManyRetries),
        ChatEvent::Slept => false,
    }
}

/// The current attempt has failed already, and the session is about to begin
/// another one or to give up.
spec fn failed_before(session: ChatView) -> nat {
    if session.phase is Recovering || session.phase is Sleeping {
        1
    } else {
        0
    }
}

/// An attempt that was begun is counted by its number.
proof fn attempts_are_counted(session: ChatView, events: Seq<ChatEvent>)
    requires
        session.well_formed(),
        follows(session, events),
    ensures
        reached(session, events).attempt == session.attempt + retries_begun(session, events),
    decreases events.len(),
{
    if events.len() > 0 {
        every_event_makes_progress(session, events.first());
        attempts_are_counted(session.next(events.first()).0, events.drop_first());
    }
}

/// The failures of a run, in which the current attempt may have failed already,
/// are at most one for each attempt, and the session gives up exactly where
/// none is left.
proof fn failures_are_counted(session: ChatView, events: Seq<ChatEvent>)
    requires
        session.well_formed(),
        follows(session, events),
        forall|i: int| 0 <= i < events.len() ==> !gave_up_outside(#[trigger] events[i]),
    ensures
        attempts_failed(session, events) + failed_before(session) <= retries_begun(session, events)
            + 1,
        events.len() > 0 ==> (last_action(session, events) == ChatAction::Fail(
            ClewdrError::TooManyRetries,
        ) <==> reached(session, events).phase is Over && attempts_failed(session, events)
            + failed_before(session) == session.max_retries - session.attempt + 1),
    decreases events.len(),
{
    if events.len() > 0 {
        let event = events.first();
        let then = session.next(event).0;
        let rest = events.drop_first();
        assert(!gave_up_outside(events[0]));
        every_event_makes_progress(session, event);
        assert forall|i: int| 0 <= i < rest.len() implies !gave_up_outside(
            #[trigger] rest[i],
        ) by {
            assert(rest[i] == events[i + 1]);
        }
        failures_are_counted(then, rest);
        reveal_with_fuel(follows, 2);
        reveal_with_fuel(reached, 2);
        reveal_with_fuel(attempts_failed, 2);
        reveal_with_fuel(retries_begun, 2);
    }
}

/// A session gives up for too many retries exactly where it has made every
/// attempt that is allowed, and each of them failed with an error that calls
/// for another one. Errors of the work outside that themselves speak of too
/// many retries are left aside.
pub proof fn giving_up_takes_every_attempt(session: ChatView, events: Seq<ChatEvent>)
    requires
        session.well_formed(),
        session.phase is Asking,
        session.attempt == 0,
        events.len() > 0,
        follows(session, events),
        forall|i: int| 0 <= i < events.len() ==> !gave_up_outside(#[trigger] events[i]),
    ensures
        last_action(session, events) == ChatAction::Fail(ClewdrError::TooManyRetries) <==> {
            &&& reached(session, events).phase is Over
            &&& 1 + retries_begun(session, events) == session.max_retries + 1
            &&& attempts_failed(session, events) == 1 + retries_begun(session, events)
        },
        attempts_failed(session, events) <= 1 + retries_begun(session, events),
        retries_begun(session, events) <= session.max_retries,
{
    failures_are_counted(session, events);
    attempts_are_counted(session, events);
    attempts_start_afresh(session, events);
}

/// Whatever happens, the endpoint and the stream flag of a request stay what
/// they were; and each attempt starts afresh, without the credential or the
/// token of the one before.
pub proof fn attempts_start_afresh(session: ChatView, events: Seq<ChatEvent>)
    requires
        session.well_formed(),
        follows(session, events),
    ensures
        reached(session, events).well_formed(),
        reached(session, events).max_retries == session.max_retries,
        reached(session, events).state.endpoint == session.state.endpoint,
        reached(session, events).state.stream == session.state.stream,
        reached(session, events).phase is Asking ==> reached(session, events).state.credential
            is None,
    decreases events.len(),
{
    if events.len() > 0 {
        every_event_makes_progress(session, events.first());
        attempts_start_afresh(session.next(events.first()).0, events.drop_first());
    }
}

/// A token that was refreshed goes back to the pool at once, with its
/// credential and without a complaint.
pub proof fn new_tokens_go_back_to_the_pool(session: ChatView, token: CodexTokenInfo)
    requires
        session.well_formed(),
        session.phase is Refreshing || session.phase is Recovering,
    ensures
        session.next(ChatEvent::Refreshed(Ok::<CodexTokenInfo, ClewdrError>(token))).1.give_back
            == Some(
            GiveBack {
                credential: session.state.credential->0.with_token(token),
                reason: None,
            },
        ),
        session.state.credential->0.with_token(token).same_account(session.state.credential->0),
{
}

/// A token that was refreshed in the course of a request is the one that the
/// pool hands out at the credential's next turn.
pub proof fn new_tokens_reach_the_pool(pool: Pool, session: ChatView, token: CodexTokenInfo)
    requires
        pool.valid.len() > 0,
        pool.is_distinct(),
        session.well_formed(),
        session.phase is Refreshing || session.phase is Recovering,
        session.state.credential == Some(pool.valid.first()),
    ensures
        ({
            let event = ChatEvent::Refreshed(Ok::<CodexTokenInfo, ClewdrError>(token));
            let back = session.next(event).1.give_back->0.credential;
            let after = pool.after(CodexActorMessage::Request).after(
                CodexActorMessage::Return(back, None),
            );
            after.valid == pool.valid.drop_first().push(pool.valid.first().with_token(token))
        }),
{
    new_tokens_go_back_to_the_pool(session, token);
    a_refreshed_token_is_kept(pool, token, None);
}

/// Whatever comes of a request, no account leaves the pool because of it,
/// and no credential is set aside.
pub proof fn requests_cost_no_credential(
    pool: Pool,
    session: ChatView,
    event: ChatEvent,
    reason: Option<String>,
    cred: CodexCredential,
)
    requires
        session.accepts(event),
    ensures
        session.next(event).1.give_back matches Some(back) ==> {
            let after = pool.after(CodexActorMessage::Return(back.credential, reason));
            &&& after.has(cred) == pool.has(cred)
            &&& after.valid.len() == pool.valid.len()
            &&& after.exhausted == pool.exhausted
        },
{
    if let Some(back) = session.next(event).1.give_back {
        let message = CodexActorMessage::Return(back.credential, reason);
        only_submit_and_delete_change_membership(pool, message, cred);
        returning_keeps_every_credential_in_rotation(pool, back.credential, reason);
    }
}

/// The current attempt is over: the next one is begun, without a credential,
/// or the session ends for too many retries.
pub open spec fn goes_on(session: ChatView, then: ChatView, action: ChatAction) -> bool {
    if session.attempt < session.max_retries {
        &&& action is RequestCredential
        &&& then.phase is Asking
        &&& then.attempt == session.attempt + 1
        &&& then.state.credential is None
    } else {
        &&& action == ChatAction::Fail(ClewdrError::TooManyRetries)
        &&& then.phase is Over
    }
}

/// A credential goes back to the pool as the session has it, with this reason.
pub open spec fn gives_back(
    session: ChatView,
    back: Option<GiveBack>,
    reason: Option<&'static str>,
) -> bool {
    back matches Some(b) && Some(b.credential) == session.state.credential && b.reason == reason
}

/// A credential that is granted is used as it is: its token is sent, refreshed
/// first where it is stale, and where there is none the client is told to log
/// in. What kept the pool or the client from granting it is the answer.
pub proof fn a_grant_is_used_as_it_is(
    session: ChatView,
    granted: Result<CodexCredential, ClewdrError>,
    client: Result<(), String>,
    stale: bool,
)
    ensures
        ({
            let (then, directive) = session.next(ChatEvent::Credential { granted, client, stale });
            &&& directive.give_back is None
            &&& then.attempt == session.attempt
            &&& match granted {
                Err(e) => directive.action == ChatAction::Fail(e) && then.phase is Over,
                Ok(credential) => {
                    &&& then.state.credential == Some(credential)
                    &&& match (client, credential.token) {
                        (Err(why), _) => {
                            &&& directive.action matches ChatAction::Fail(
                                ClewdrError::WreqError { msg, source },
                            ) && msg == "Failed to build codex client with new credential"
                                && source == why
                            &&& then.phase is Over
                        },
                        (Ok(_), None) => {
                            &&& directive.action matches ChatAction::Fail(
                                ClewdrError::BadRequest { msg },
                            ) && msg == "No Codex token available - login required via dashboard"
                            &&& then.phase is Over
                        },
                        (Ok(_), Some(token)) => if stale {
                            &&& directive.action matches ChatAction::Refresh(t) && t == token
                            &&& then.phase is Refreshing
                        } else {
                            &&& directive.action matches ChatAction::Forward(t) && t
                                == token.access_token
                            &&& then.phase is Forwarding
                        },
                    }
                },
            }
        }),
{
}

/// A refreshed token is taken whole: the credential that goes back to the pool,
/// and the one that the request goes on with, hold the new access token, refresh
/// token, id token and time, and are otherwise as before. A stale token's
/// request is then sent with it; a refused one's attempt is over.
pub proof fn a_refreshed_token_is_taken_whole(session: ChatView, token: CodexTokenInfo)
    requires
        session.well_formed(),
        session.phase is Refreshing || session.phase is Recovering,
    ensures
        ({
            let (then, directive) = session.next(
                ChatEvent::Refreshed(Ok::<CodexTokenInfo, ClewdrError>(token)),
            );
            let before = session.state.credential->0;
            &&& directive.give_back matches Some(back) && {
                &&& back.reason is None
                &&& back.credential.token matches Some(now) && {
                    &&& now.access_token == token.access_token
                    &&& now.refresh_token == token.refresh_token
                    &&& now.id_token == token.id_token
                    &&& now.last_refresh == token.last_refresh
                }
                &&& back.credential.account_id == before.account_id
                &&& back.credential.label == before.label
                &&& back.credential.reset_time == before.reset_time
            }
            &&& if session.phase is Refreshing {
                &&& directive.action matches ChatAction::Forward(t) && t == token.access_token
                &&& then.phase is Forwarding
                &&& then.attempt == session.attempt
                &&& then.state.credential matches Some(now) && {
                    &&& now.token == Some(token)
                    &&& now.account_id == before.account_id
                    &&& now.label == before.label
                    &&& now.reset_time == before.reset_time
                }
            } else {
                goes_on(session, then, directive.action)
            }
        }),
{
}

/// A refused token that cannot be refreshed sends its credential back with the
/// reason, and the attempt is over.
pub proof fn a_failed_recovery_is_reported(session: ChatView, error: ClewdrError)
    requires
        session.well_formed(),
        session.phase is Recovering,
    ensures
        ({
            let (then, directive) = session.next(
                ChatEvent::Refreshed(Err::<CodexTokenInfo, ClewdrError>(error)),
            );
            &&& gives_back(session, directive.give_back, Some("Token refresh failed"))
            &&& goes_on(session, then, directive.action)
        }),
{
}

/// An error of the request, or of the refreshing of a stale token, is judged by
/// the status that the backend sent: 401 has the token at hand refreshed, 429
/// sends the credential back and ends the attempt, 500 to 599 is waited out for
/// a second, doubled for each attempt before. Any other error is the answer.
pub proof fn errors_are_judged_by_their_status(session: ChatView, event: ChatEvent, error: ClewdrError)
    requires
        session.well_formed(),
        session.accepts(event),
        event == ChatEvent::Forwarded(Err::<(), ClewdrError>(error)) || (session.phase is Refreshing
            && event == ChatEvent::Refreshed(Err::<CodexTokenInfo, ClewdrError>(error))),
    ensures
        ({
            let (then, directive) = session.next(event);
            match error {
                ClewdrError::ClaudeHttpError { code, .. } => if code == 401 {
                    &&& directive.give_back is None
                    &&& directive.action matches ChatAction::Refresh(t) && Some(t)
                        == session.state.credential->0.token
                    &&& then.phase is Recovering
                    &&& then.attempt == session.attempt
                    &&& then.state == session.state
                } else if code == 429 {
                    &&& gives_back(session, directive.give_back, Some("Rate limited"))
                    &&& goes_on(session, then, directive.action)
                } else if 500 <= code <= 599 {
                    &&& directive.give_back is None
                    &&& directive.action matches ChatAction::Sleep(millis) && millis == 1000
                        * pow2(session.attempt as nat)
                    &&& then.phase is Sleeping
                    &&& then.attempt == session.attempt
                } else {
                    &&& directive.give_back is None
                    &&& directive.action == ChatAction::Fail(error)
                    &&& then.phase is Over
                },
                _ => {
                    &&& directive.give_back is None
                    &&& directive.action == ChatAction::Fail(error)
                    &&& then.phase is Over
                },
            }
        }),
{
    vstd::arithmetic::power2::lemma2_to64_rest();
    if session.attempt < LAST_WAIT {
        vstd::arithmetic::power2::lemma_pow2_strictly_increases(
            session.attempt as nat,
            LAST_WAIT as nat,
        );
    }
}

/// After a wait, and after a response, nothing goes back; the wait ends the
/// attempt, and the response is delivered.
pub proof fn waits_end_attempts(session: ChatView)
    ensures
        ({
            let (then, directive) = session.next(ChatEvent::Slept);
            &&& directive.give_back is None
            &&& goes_on(session, then, directive.action)
        }),
        ({
            let (then, directive) = session.next(ChatEvent::Forwarded(Ok::<(), ClewdrError>(())));
            &&& directive.give_back is None
            &&& directive.action is Deliver
            &&& then.phase is Over
        }),
{
}

/// A session takes the event that its phase waits for, and no other; and a
/// server error exactly where the wait for it fits into 64 bits.
pub proof fn sessions_take_what_they_wait_for(session: ChatView, event: ChatEvent)
    ensures
        session.accepts(event) <==> {
            &&& match event {
                ChatEvent::Credential { .. } => session.phase is Asking,
                ChatEvent::Refreshed(_) => session.phase is Refreshing
                    || session.phase is Recovering,
                ChatEvent::Forwarded(_) => session.phase is Forwarding,
                ChatEvent::Slept => session.phase is Sleeping,
            }
            &&& match event {
                ChatEvent::Forwarded(Err(ClewdrError::ClaudeHttpError { code, .. })) => 500 <= code
                    <= 599 ==> 1000 * pow2(session.attempt as nat) <= u64::MAX,
                ChatEvent::Refreshed(Err(ClewdrError::ClaudeHttpError { code, .. })) => 500 <= code
                    <= 599 && session.phase is Refreshing ==> 1000 * pow2(session.attempt as nat)
                    <= u64::MAX,
                _ => true,
            }
        },
{
    vstd::arithmetic::power2::lemma2_to64_rest();
    if session.attempt < LAST_WAIT {
        vstd::arithmetic::power2::lemma_pow2_strictly_increases(
            session.attempt as nat,
            LAST_WAIT as nat,
        );
    }
    if session.attempt > 55 {
        vstd::arithmetic::power2::lemma_pow2_strictly_increases(55, session.attempt as nat);
    }
}

/// The phase of a session tells what it was last asked for.
pub proof fn phases_wait_for_the_work_asked_for(session: ChatView, event: ChatEvent)
    requires
        session.accepts(event),
    ensures
        ({
            let (then, directive) = session.next(event);
            match directive.action {
                ChatAction::RequestCredential => then.phase is Asking,
                ChatAction::Refresh(_) => then.phase is Refreshing || then.phase is Recovering,
                ChatAction::Forward(_) => then.phase is Forwarding,
                ChatAction::Sleep(_) => then.phase is Sleeping,
                ChatAction::Deliver => then.phase is Over,
                ChatAction::Fail(_) => then.phase is Over,
            }
        }),
{
}

/// A session that starts is that of the state that starts it, at its first
/// attempt, with as many retries as were asked for and no credential; the state
/// itself stays as it is.
pub proof fn sessions_start_from_their_state()
    ensures
        forall|state: &mut CodexState, max_retries: usize, start: (ChatSession, ChatAction)|
            #[trigger]
            call_ensures(CodexState::try_chat, (state, max_retries), start) ==> {
                &&& *final(state) == *state
                &&& start.0@.state.credential is None
                &&& start.0@.state.endpoint == state.endpoint
                &&& start.0@.state.stream == state.stream
                &&& start.0@.attempt == 0
                &&& start.0@.max_retries == max_retries
                &&& start.0@.phase is Asking
                &&& start.1 is RequestCredential
            },
{
}

/// A step of a session is what its event leads to, and the session shows its
/// attempt and its state as they are.
pub proof fn steps_follow_the_events(
    session: ChatSession,
    event: ChatEvent,
    next: (ChatSession, Directive),
    taken: bool,
    attempt: usize,
    state: &CodexState,
)
    requires
        call_ensures(ChatSession::step, (session, event), next),
        call_ensures(ChatSession::takes, (&session, &event), taken),
        call_ensures(ChatSession::attempt, (&session,), attempt),
        call_ensures(ChatSession::state, (&session,), state),
    ensures
        next.0@ == session@.next(event).0,
        next.1 == session@.next(event).1,
        taken == session@.accepts(event),
        attempt == session@.attempt,
        *state == session@.state,
{
}

/// The wait after a server error is a second, doubled for each attempt before.
pub proof fn waits_are_powers(attempt: usize, millis: u64)
    requires
        call_ensures(backoff_millis, (attempt,), millis),
    ensures
        millis == 1000 * pow2(attempt as nat),
{
}

/// A request carries the access token of the credential at hand.
pub proof fn requests_carry_the_token_at_hand(session: ChatView, event: ChatEvent)
    requires
        session.well_formed(),
        session.accepts(event),
    ensures
        session.next(event).1.action matches ChatAction::Forward(access_token) ==> {
            session.next(event).0.state.token() matches Some(token) && token.access_token
                == access_token
        },
{
}

/// A response of the backend is delivered, and ends the session.
pub proof fn responses_are_delivered(session: ChatView)
    requires
        session.phase is Forwarding,
    ensures
        session.next(ChatEvent::Forwarded(Ok::<(), ClewdrError>(()))).1.action is Deliver,
        session.next(ChatEvent::Forwarded(Ok::<(), ClewdrError>(()))).0.phase is Over,
{
}

/// The first wait is a second, and each further one twice the one before.
pub proof fn waits_double(attempt: usize)
    requires
        attempt < usize::MAX,
    ensures
        backoff(0) == 1000,
        backoff((attempt + 1) as usize) == 2 * backoff(attempt),
{
    vstd::arithmetic::power2::lemma2_to64();
    vstd::arithmetic::power2::lemma_pow2_unfold((attempt + 1) as nat);
}

} // verus!
