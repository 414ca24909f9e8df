//! What holds of the pool over several messages.
use crate::codex_actor::{
    distinct, holds, rotated, updated, updated_absent, updated_at, without, CodexActor,
    CodexActorMessage, CodexActorState, CodexCredentialInfo, Outcome, Pool, Reply,
};
use crate::config::{CodexCredential, CodexTokenInfo};
use crate::error::ClewdrError;
use vstd::prelude::*;

verus! {

/// The pool after `times` requests for a credential.
pub open spec fn dispatched_times(pool: Pool, times: nat) -> Pool
    decreases times,
{
    if times == 0 {
        pool
    } else {
        dispatched_times(pool, (times - 1) as nat).dispatched()
    }
}

/// Credentials take turns: request number `times`, counted from zero, gets the
/// credential at that position of the rotation, which starts over at its end.
pub proof fn credentials_take_turns(pool: Pool, times: nat)
    requires
        pool.valid.len() > 0,
    ensures
        dispatched_times(pool, times).next() == Ok::<_, ClewdrError>(
            pool.valid[times as int % pool.valid.len() as int],
        ),
{
    let n = pool.valid.len() as int;
    turned(pool, times);
    assert(dispatched_times(pool, times).valid[0] == pool.valid[(0int + times) % n]);
}

/// A full round of requests leaves the pool as it was.
pub proof fn a_full_round_restores_the_order(pool: Pool)
    ensures
        dispatched_times(pool, pool.valid.len()) == pool,
{
    let n = pool.valid.len();
    if n > 0 {
        turned(pool, n);
        let after = dispatched_times(pool, n);
        assert forall|i: int| 0 <= i < n implies after.valid[i] == pool.valid[i] by {
            assert((i + n) % (n as int) == i) by (nonlinear_arith)
                requires
                    0 <= i < n,
            ;
        }
        assert(after.valid =~= pool.valid);
    }
}

proof fn turned(pool: Pool, times: nat)
    requires
        pool.valid.len() > 0,
    ensures
        dispatched_times(pool, times).exhausted == pool.exhausted,
        dispatched_times(pool, times).valid.len() == pool.valid.len(),
        forall|i: int|
            0 <= i < pool.valid.len() ==> #[trigger] dispatched_times(pool, times).valid[i]
                == pool.valid[(i + times) % pool.valid.len() as int],
    decreases times,
{
    let n = pool.valid.len() as int;
    if times == 0 {
        assert forall|i: int| 0 <= i < n implies #[trigger] dispatched_times(pool, times).valid[i]
            == pool.valid[(i + times) % n] by {
            vstd::arithmetic::div_mod::lemma_small_mod(i as nat, n as nat);
        }
    } else {
        let before = dispatched_times(pool, (times - 1) as nat);
        let after = dispatched_times(pool, times);
        turned(pool, (times - 1) as nat);
        assert forall|i: int| 0 <= i < n implies #[trigger] after.valid[i] == pool.valid[(i + times)
            % n] by {
            if i < n - 1 {
                assert(after.valid[i] == before.valid[i + 1]);
            } else {
                assert(after.valid[i] == before.valid[0]);
                assert((times - 1) % n == (n - 1 + times) % n) by {
                    vstd::arithmetic::div_mod::lemma_mod_add_multiples_vanish(times - 1, n);
                }
            }
        }
    }
}

/// Whatever is asked of it, the pool never comes to hold an account twice.
pub proof fn accounts_stay_distinct(pool: Pool, message: CodexActorMessage)
    requires
        pool.is_distinct(),
    ensures
        pool.after(message).is_distinct(),
{
    let before = pool.saved();
    let after = pool.after(message).saved();
    match message {
        CodexActorMessage::Return(cred, _) => {
            updated_keeps_places(pool.valid, cred);
            let valid = updated(pool.valid, cred);
            assert forall|i: int, j: int|
                0 <= i < after.len() && 0 <= j < after.len() && i != j implies !(
            #[trigger] after[i]).same_account(#[trigger] after[j]) by {
                assert(!before[i].same_account(before[j]));
                if i < valid.len() {
                    assert(valid[i].same_account(pool.valid[i]));
                }
                if j < valid.len() {
                    assert(valid[j].same_account(pool.valid[j]));
                }
            }
        },
        CodexActorMessage::Submit(cred) => {
            if !pool.has(cred) {
                let n = pool.valid.len();
                assert forall|i: int, j: int|
                    0 <= i < after.len() && 0 <= j < after.len() && i != j implies !(
                #[trigger] after[i]).same_account(#[trigger] after[j]) by {
                    let a = if i <= n { i } else { i - 1 };
                    let b = if j <= n { j } else { j - 1 };
                    if i == n {
                        assert(before[b] == after[j]);
                        if b < n {
                            assert(!pool.valid[b].same_account(cred));
                        } else {
                            assert(!pool.exhausted[b - n].same_account(cred));
                        }
                    } else if j == n {
                        assert(before[a] == after[i]);
                        if a < n {
                            assert(!pool.valid[a].same_account(cred));
                        } else {
                            assert(!pool.exhausted[a - n].same_account(cred));
                        }
                    } else {
                        assert(before[a] == after[i] && before[b] == after[j]);
                    }
                }
            }
        },
        CodexActorMessage::Request => {
            let n = pool.valid.len() as int;
            if n > 0 {
                assert forall|i: int, j: int|
                    0 <= i < after.len() && 0 <= j < after.len() && i != j implies !(
                #[trigger] after[i]).same_account(#[trigger] after[j]) by {
                    let a = if i < n - 1 { i + 1 } else if i == n - 1 { 0 } else { i };
                    let b = if j < n - 1 { j + 1 } else if j == n - 1 { 0 } else { j };
                    assert(after[i] == before[a] && after[j] == before[b]);
                }
            } else {
                assert(after =~= before);
            }
        },
        CodexActorMessage::GetStatus => {},
        CodexActorMessage::Delete(cred) => {
            without_of_concatenation(pool.valid, pool.exhausted, cred);
            without_stays_distinct(before, cred);
        },
    }
}

/// A credential that comes back stays in the rotation at its place, whatever
/// the reason it came back with, and no other credential is touched.
pub proof fn returning_keeps_every_credential_in_rotation(
    pool: Pool,
    cred: CodexCredential,
    reason: Option<String>,
)
    ensures
        pool.after(CodexActorMessage::Return(cred, reason)).exhausted == pool.exhausted,
        pool.after(CodexActorMessage::Return(cred, reason)).valid.len() == pool.valid.len(),
        forall|i: int|
            0 <= i < pool.valid.len() ==> {
                let now = #[trigger] pool.after(CodexActorMessage::Return(cred, reason)).valid[i];
                now == pool.valid[i] || (now == cred && pool.valid[i].same_account(cred))
            },
{
    updated_keeps_places(pool.valid, cred);
}

/// A credential that comes back with a new token is the one handed out at its
/// next turn.
pub proof fn a_refreshed_token_is_kept(pool: Pool, token: CodexTokenInfo, reason: Option<String>)
    requires
        pool.valid.len() > 0,
        pool.is_distinct(),
    ensures
        ({
            let served = pool.valid.first();
            let refreshed = served.with_token(token);
            let after = pool.after(CodexActorMessage::Request).after(
                CodexActorMessage::Return(refreshed, reason),
            );
            after.valid == pool.valid.drop_first().push(refreshed)
        }),
{
    let refreshed = pool.valid.first().with_token(token);
    let turned = rotated(pool.valid);
    let last = turned.len() - 1;
    assert forall|k: int| 0 <= k < last implies !(#[trigger] turned[k]).same_account(refreshed) by {
        assert(turned[k] == pool.valid[k + 1]);
        assert(!pool.saved()[k + 1].same_account(pool.saved()[0]));
    }
    updated_last(turned, refreshed);
    assert(turned.drop_last() =~= pool.valid.drop_first());
}

/// Nothing is ever set aside: a pool without exhausted credentials stays one.
pub proof fn nothing_is_set_aside(pool: Pool, message: CodexActorMessage)
    requires
        pool.exhausted.len() == 0,
    ensures
        pool.after(message).exhausted.len() == 0,
{
    reveal(Seq::filter);
}

/// Starting from what was saved puts every credential back into rotation.
pub proof fn a_restart_brings_everything_back(pool: Pool)
    ensures
        Pool::started(pool.saved()).saved() == pool.saved(),
        pool.exhausted.len() == 0 ==> Pool::started(pool.saved()) == pool,
{
    assert(Pool::started(pool.saved()).saved() =~= pool.saved());
    if pool.exhausted.len() == 0 {
        assert(Pool::started(pool.saved()) =~= pool);
    }
}

/// A deleted account is gone, and can be added again.
pub proof fn a_deleted_account_is_gone(pool: Pool, cred: CodexCredential)
    ensures
        !pool.after(CodexActorMessage::Delete(cred)).has(cred),
        pool.after(CodexActorMessage::Delete(cred)).after(CodexActorMessage::Submit(cred)).has(cred),
{
    without_lacks(pool.valid, cred);
    without_lacks(pool.exhausted, cred);
    a_submitted_account_is_there(pool.deleted(cred), cred);
}

/// Deleting an account leaves the other accounts.
pub proof fn deleting_leaves_the_others(pool: Pool, cred: CodexCredential, other: CodexCredential)
    requires
        !other.same_account(cred),
    ensures
        pool.after(CodexActorMessage::Delete(cred)).has(other) == pool.has(other),
{
    without_leaves(pool.valid, cred, other);
    without_leaves(pool.exhausted, cred, other);
}

/// A submitted account is in the pool, and submitting it again changes nothing.
pub proof fn a_submitted_account_is_there(pool: Pool, cred: CodexCredential)
    ensures
        pool.after(CodexActorMessage::Submit(cred)).has(cred),
        pool.after(CodexActorMessage::Submit(cred)).after(CodexActorMessage::Submit(cred))
            == pool.after(CodexActorMessage::Submit(cred)),
{
    if !pool.has(cred) {
        let valid = pool.valid.push(cred);
        assert(valid[pool.valid.len() as int].same_account(cred));
    }
}

/// Requests, listings and returns change no account's membership.
pub proof fn only_submit_and_delete_change_membership(
    pool: Pool,
    message: CodexActorMessage,
    cred: CodexCredential,
)
    requires
        !(message is Submit),
        !(message is Delete),
    ensures
        pool.after(message).has(cred) == pool.has(cred),
{
    let valid = pool.after(message).valid;
    match message {
        CodexActorMessage::Return(back, _) => {
            updated_keeps_places(pool.valid, back);
            if holds(pool.valid, cred) {
                let i = choose|i: int|
                    0 <= i < pool.valid.len() && #[trigger] pool.valid[i].same_account(cred);
                assert(valid[i].same_account(cred));
            }
            if holds(valid, cred) {
                let i = choose|i: int| 0 <= i < valid.len() && #[trigger] valid[i].same_account(cred);
                assert(pool.valid[i].same_account(cred));
            }
        },
        CodexActorMessage::Request => {
            let n = pool.valid.len() as int;
            if holds(pool.valid, cred) {
                let i = choose|i: int|
                    0 <= i < pool.valid.len() && #[trigger] pool.valid[i].same_account(cred);
                let j = if i == 0 { n - 1 } else { i - 1 };
                assert(valid[j] == pool.valid[i]);
                assert(valid[j].same_account(cred));
            }
            if holds(valid, cred) {
                let j = choose|j: int| 0 <= j < valid.len() && #[trigger] valid[j].same_account(cred);
                let i = if j == n - 1 { 0 } else { j + 1 };
                assert(valid[j] == pool.valid[i]);
                assert(pool.valid[i].same_account(cred));
            }
        },
        _ => {},
    }
}

/// Where a message does not call for a save, the pool still has the
/// credentials that were saved, if perhaps in another order.
pub proof fn the_configuration_never_lags_behind(
    pool: Pool,
    message: CodexActorMessage,
    kept: Seq<CodexCredential>,
)
    requires
        kept.to_multiset() == pool.saved().to_multiset(),
    ensures
        ({
            let after = pool.after(message);
            let kept_after = if pool.saves_on(message) {
                after.saved()
            } else {
                kept
            };
            kept_after.to_multiset() == after.saved().to_multiset()
        }),
{
    if !pool.saves_on(message) {
        match message {
            CodexActorMessage::Return(cred, _) => {
                updated_keeps_places(pool.valid, cred);
                let valid = updated(pool.valid, cred);
                assert forall|i: int| 0 <= i < valid.len() implies valid[i] == pool.valid[i] by {
                    assert(!pool.valid[i].same_account(cred));
                }
                assert(valid =~= pool.valid);
            },
            CodexActorMessage::Submit(cred) => {},
            CodexActorMessage::Request => {
                if pool.valid.len() > 0 {
                    broadcast use vstd::seq_lib::group_to_multiset_ensures;

                    let first = pool.valid.first();
                    let rest = pool.valid.drop_first();
                    assert(pool.valid =~= seq![first] + rest);
                    assert(rest.push(first) =~= rest + seq![first]);
                    vstd::seq_lib::lemma_multiset_commutative(seq![first], rest);
                    vstd::seq_lib::lemma_multiset_commutative(rest, seq![first]);
                    vstd::seq_lib::lemma_multiset_commutative(pool.valid, pool.exhausted);
                    vstd::seq_lib::lemma_multiset_commutative(rest.push(first), pool.exhausted);
                    assert(pool.valid.to_multiset() =~= rest.push(first).to_multiset());
                }
            },
            CodexActorMessage::GetStatus => {},
            CodexActorMessage::Delete(cred) => {
                crate::codex_actor::deleting_absent_changes_nothing(pool, cred);
            },
        }
    }
}

/// The view of a pool, or of a report on it, is its two lists.
pub proof fn pools_are_two_lists(state: CodexActorState, info: CodexCredentialInfo)
    ensures
        state@.valid == state.valid@,
        state@.exhausted == state.exhausted@,
        info@.valid == info.valid@,
        info@.exhausted == info.exhausted@,
{
}

/// The pool has an account where a credential of it stands in either list.
pub proof fn having_an_account(pool: Pool, cred: CodexCredential)
    ensures
        pool.has(cred) <==> {
            ||| exists|i: int| 0 <= i < pool.valid.len() && pool.valid[i].same_account(cred)
            ||| exists|i: int| 0 <= i < pool.exhausted.len() && pool.exhausted[i].same_account(cred)
        },
{
}

/// A submitted credential of a new account stands last in the rotation, as it
/// was submitted, and every other credential is where and as it was; the pool
/// is then saved. Where the pool has the account, nothing changes.
pub proof fn a_submitted_credential_is_kept_as_it_is(pool: Pool, cred: CodexCredential)
    ensures
        ({
            let message = CodexActorMessage::Submit(cred);
            let after = pool.after(message);
            let known = {
                ||| exists|i: int| 0 <= i < pool.valid.len() && pool.valid[i].same_account(cred)
                ||| exists|i: int|
                    0 <= i < pool.exhausted.len() && pool.exhausted[i].same_account(cred)
            };
            if known {
                after == pool && !pool.saves_on(message)
            } else {
                &&& after.valid.len() == pool.valid.len() + 1
                &&& after.valid.last() == cred
                &&& after.valid.drop_last() == pool.valid
                &&& after.exhausted == pool.exhausted
                &&& pool.saves_on(message)
            }
        }),
{
    let after = pool.after(CodexActorMessage::Submit(cred));
    if !pool.has(cred) {
        assert(after.valid.drop_last() =~= pool.valid);
    }
}

/// A request is served the first credential of the rotation, as it is, which
/// then stands last; an empty rotation has none to serve and stays as it is.
pub proof fn a_request_is_served_the_first(pool: Pool, reply: Reply)
    requires
        pool.answers(CodexActorMessage::Request, reply),
    ensures
        ({
            let after = pool.after(CodexActorMessage::Request);
            &&& after.exhausted == pool.exhausted
            &&& !pool.saves_on(CodexActorMessage::Request)
            &&& if pool.valid.len() == 0 {
                &&& reply == Reply::Credential(
                    Err::<CodexCredential, _>(ClewdrError::NoCookieAvailable),
                )
                &&& after.valid == pool.valid
            } else {
                &&& reply == Reply::Credential(Ok::<_, ClewdrError>(pool.valid[0]))
                &&& after.valid.len() == pool.valid.len()
                &&& after.valid.last() == pool.valid[0]
                &&& forall|i: int|
                    0 < i < pool.valid.len() ==> after.valid[i - 1] == #[trigger] pool.valid[i]
            }
        }),
{
}

/// A credential that comes back takes the place of the first one of its account
/// in the rotation, as it came, and the pool is saved; every other credential
/// is where and as it was. One whose account is not in the rotation changes
/// nothing. No reason makes a difference.
pub proof fn a_returned_credential_takes_its_place(
    pool: Pool,
    cred: CodexCredential,
    reason: Option<String>,
    at: int,
    reply: Reply,
)
    requires
        0 <= at <= pool.valid.len(),
        at < pool.valid.len() ==> pool.valid[at].same_account(cred),
        forall|i: int| 0 <= i < at ==> !(#[trigger] pool.valid[i]).same_account(cred),
        pool.answers(CodexActorMessage::Return(cred, reason), reply),
    ensures
        ({
            let message = CodexActorMessage::Return(cred, reason);
            let after = pool.after(message);
            &&& reply is Nothing
            &&& after.exhausted == pool.exhausted
            &&& after.valid == if at < pool.valid.len() {
                pool.valid.update(at, cred)
            } else {
                pool.valid
            }
            &&& pool.saves_on(message) <==> at < pool.valid.len()
        }),
{
    if at < pool.valid.len() {
        updated_at(pool.valid, cred, at);
    } else {
        updated_absent(pool.valid, cred);
    }
}

/// A deletion takes out the credentials of the account and no others, which
/// keep their order; it succeeds, and the pool is saved, exactly where there
/// was one.
pub proof fn a_deletion_takes_out_the_account(pool: Pool, cred: CodexCredential, reply: Reply)
    requires
        pool.answers(CodexActorMessage::Delete(cred), reply),
    ensures
        ({
            let message = CodexActorMessage::Delete(cred);
            let after = pool.after(message);
            let known = {
                ||| exists|i: int| 0 <= i < pool.valid.len() && pool.valid[i].same_account(cred)
                ||| exists|i: int|
                    0 <= i < pool.exhausted.len() && pool.exhausted[i].same_account(cred)
            };
            &&& after.valid == pool.valid.filter(|c: CodexCredential| !c.same_account(cred))
            &&& after.exhausted == pool.exhausted.filter(|c: CodexCredential| !c.same_account(cred))
            &&& pool.saves_on(message) <==> known
            &&& if known {
                reply == Reply::Deleted(Ok::<(), ClewdrError>(()))
            } else {
                reply matches Reply::Deleted(Err(ClewdrError::UnexpectedNone { msg })) && msg
                    == "Delete operation did not find the codex credential"
            }
        }),
{
}

/// A listing shows both lists of the pool as they are, and changes nothing.
pub proof fn a_listing_shows_the_pool(pool: Pool, reply: Reply)
    requires
        pool.answers(CodexActorMessage::GetStatus, reply),
    ensures
        pool.after(CodexActorMessage::GetStatus) == pool,
        !pool.saves_on(CodexActorMessage::GetStatus),
        reply matches Reply::Status(info) && info.valid@ == pool.valid && info.exhausted@
            == pool.exhausted,
{
}

/// A submission is not answered.
pub proof fn a_submission_is_not_answered(pool: Pool, cred: CodexCredential, reply: Reply)
    requires
        pool.answers(CodexActorMessage::Submit(cred), reply),
    ensures
        reply is Nothing,
{
}

/// What is saved of a pool is its rotation followed by what was set aside; a
/// pool that is started from a list has all of it in rotation, in order.
pub proof fn pools_are_saved_whole(pool: Pool, all: Seq<CodexCredential>)
    ensures
        pool.saved() == pool.valid + pool.exhausted,
        Pool::started(all).valid == all,
        Pool::started(all).exhausted.len() == 0,
{
}

/// Handling a message changes the pool, answers and saves as the message asks;
/// what is saved is the pool as it then is.
pub proof fn handling_follows_the_message()
    ensures
        forall|state: &mut CodexActorState, message: CodexActorMessage, outcome: Outcome|
            #[trigger]
            call_ensures(CodexActor::handle, (state, message), outcome) ==> {
                &&& final(state)@ == state@.after(message)
                &&& state@.answers(message, outcome.reply)
                &&& outcome.save is Some <==> state@.saves_on(message)
                &&& outcome.save matches Some(list) ==> list@ == final(state).valid@
                    + final(state).exhausted@
            },
{
}

/// The single operations do what the messages for them ask.
pub proof fn operations_follow_the_messages()
    ensures
        forall|state: &mut CodexActorState, result: Result<CodexCredential, ClewdrError>|
            #[trigger]
            call_ensures(CodexActor::dispatch, (state,), result) ==> {
                &&& final(state)@ == state@.after(CodexActorMessage::Request)
                &&& state@.answers(CodexActorMessage::Request, Reply::Credential(result))
            },
        forall|
            state: &mut CodexActorState,
            cred: CodexCredential,
            reason: Option<String>,
            save: bool,
        | #[trigger]
            call_ensures(CodexActor::collect, (state, cred, reason), save) ==> {
                &&& final(state)@ == state@.after(CodexActorMessage::Return(cred, reason))
                &&& save == state@.saves_on(CodexActorMessage::Return(cred, reason))
            },
        forall|state: &mut CodexActorState, cred: CodexCredential, save: bool| #[trigger]
            call_ensures(CodexActor::accept, (state, cred), save) ==> {
                &&& final(state)@ == state@.after(CodexActorMessage::Submit(cred))
                &&& save == state@.saves_on(CodexActorMessage::Submit(cred))
            },
        forall|state: &mut CodexActorState, cred: CodexCredential, result: Result<(), ClewdrError>|
            #[trigger]
            call_ensures(CodexActor::delete, (state, cred), result) ==> {
                &&& final(state)@ == state@.after(CodexActorMessage::Delete(cred))
                &&& state@.answers(CodexActorMessage::Delete(cred), Reply::Deleted(result))
            },
{
}

/// Saving and stopping write the rotation and then what was set aside; a report
/// shows both; the counts are their lengths; a start puts all into rotation.
pub proof fn pools_are_read_whole(
    state: CodexActorState,
    saved: Vec<CodexCredential>,
    stopped: Vec<CodexCredential>,
    info: CodexCredentialInfo,
    counts: (usize, usize),
    all: Vec<CodexCredential>,
    started: CodexActorState,
)
    requires
        call_ensures(CodexActor::save, (&state,), saved),
        call_ensures(CodexActor::post_stop, (&state,), stopped),
        call_ensures(CodexActor::report, (&state,), info),
        call_ensures(CodexActor::log, (&state,), counts),
        call_ensures(CodexActor::pre_start, (all,), started),
    ensures
        saved@ == state.valid@ + state.exhausted@,
        stopped@ == state.valid@ + state.exhausted@,
        info.valid@ == state.valid@,
        info.exhausted@ == state.exhausted@,
        counts.0 == state.valid@.len(),
        counts.1 == state.exhausted@.len(),
        started.valid@ == all@,
        started.exhausted@.len() == 0,
{
    assert(info@.valid == info.valid@);
    assert(started@.valid == started.valid@);
}

/// `updated` changes at most credentials of the account itself.
proof fn updated_keeps_places(list: Seq<CodexCredential>, cred: CodexCredential)
    ensures
        updated(list, cred).len() == list.len(),
        forall|i: int|
            0 <= i < list.len() ==> {
                let now = #[trigger] updated(list, cred)[i];
                now == list[i] || (now == cred && list[i].same_account(cred))
            },
    decreases list.len(),
{
    if list.len() > 0 && !list.first().same_account(cred) {
        let rest = list.drop_first();
        updated_keeps_places(rest, cred);
        assert forall|i: int| 0 <= i < list.len() implies {
            let now = #[trigger] updated(list, cred)[i];
            now == list[i] || (now == cred && list[i].same_account(cred))
        } by {
            if i > 0 {
                assert(updated(list, cred)[i] == updated(rest, cred)[i - 1]);
            }
        }
    }
}

proof fn updated_last(list: Seq<CodexCredential>, cred: CodexCredential)
    requires
        list.len() > 0,
        list.last().same_account(cred),
        forall|k: int| 0 <= k < list.len() - 1 ==> !(#[trigger] list[k]).same_account(cred),
    ensures
        updated(list, cred) == list.drop_last().push(cred),
    decreases list.len(),
{
    if list.len() == 1 {
        assert(updated(list, cred) =~= list.drop_last().push(cred));
    } else {
        let rest = list.drop_first();
        assert(!list[0].same_account(cred));
        assert forall|k: int| 0 <= k < rest.len() - 1 implies !(#[trigger] rest[k]).same_account(
            cred,
        ) by {
            assert(rest[k] == list[k + 1]);
        }
        updated_last(rest, cred);
        assert(updated(list, cred) =~= list.drop_last().push(cred));
    }
}

proof fn without_of_concatenation(
    a: Seq<CodexCredential>,
    b: Seq<CodexCredential>,
    cred: CodexCredential,
)
    ensures
        without(a + b, cred) == without(a, cred) + without(b, cred),
{
    Seq::filter_distributes_over_add(a, b, |c: CodexCredential| !c.same_account(cred));
}

proof fn without_lacks(list: Seq<CodexCredential>, cred: CodexCredential)
    ensures
        !holds(without(list, cred), cred),
{
    broadcast use vstd::seq_lib::group_filter_ensures;

}

proof fn without_leaves(list: Seq<CodexCredential>, cred: CodexCredential, other: CodexCredential)
    requires
        !other.same_account(cred),
    ensures
        holds(without(list, cred), other) == holds(list, other),
{
    let kept = without(list, cred);
    let pred = |c: CodexCredential| !c.same_account(cred);
    broadcast use vstd::seq_lib::group_filter_ensures;

    if holds(list, other) {
        let i = choose|i: int| 0 <= i < list.len() && #[trigger] list[i].same_account(other);
        assert(pred(list[i]));
        assert(kept.contains(list[i]));
        let k = choose|k: int| 0 <= k < kept.len() && kept[k] == list[i];
        assert(kept[k].same_account(other));
    }
    if holds(kept, other) {
        let k = choose|k: int| 0 <= k < kept.len() && #[trigger] kept[k].same_account(other);
        without_within(list, cred, k);
        let i = choose|i: int| 0 <= i < list.len() && list[i] == kept[k];
        assert(list[i].same_account(other));
    }
}

/// What `without` keeps was there before.
proof fn without_within(list: Seq<CodexCredential>, cred: CodexCredential, k: int)
    requires
        0 <= k < without(list, cred).len(),
    ensures
        list.contains(without(list, cred)[k]),
    decreases list.len(),
{
    reveal(Seq::filter);
    if list.len() > 0 {
        let init = list.drop_last();
        if k < without(init, cred).len() {
            without_within(init, cred, k);
            let i = choose|i: int| 0 <= i < init.len() && init[i] == without(init, cred)[k];
            assert(list[i] == without(list, cred)[k]);
        } else {
            assert(list[list.len() - 1] == without(list, cred)[k]);
        }
    }
}

proof fn without_stays_distinct(list: Seq<CodexCredential>, cred: CodexCredential)
    requires
        distinct(list),
    ensures
        distinct(without(list, cred)),
    decreases list.len(),
{
    reveal(Seq::filter);
    let pred = |c: CodexCredential| !c.same_account(cred);
    if list.len() > 0 {
        let init = list.drop_last();
        assert(distinct(init)) by {
            assert forall|i: int, j: int|
                0 <= i < init.len() && 0 <= j < init.len() && i != j implies !(
            #[trigger] init[i]).same_account(#[trigger] init[j]) by {
                assert(!list[i].same_account(list[j]));
            }
        }
        without_stays_distinct(init, cred);
        let kept = without(init, cred);
        broadcast use vstd::seq_lib::group_filter_ensures;

        if pred(list.last()) {
            assert(without(list, cred) == kept.push(list.last()));
            assert forall|k: int| 0 <= k < kept.len() implies !(#[trigger] kept[k]).same_account(
                list.last(),
            ) by {
                without_within(init, cred, k);
                let i = choose|i: int| 0 <= i < init.len() && init[i] == kept[k];
                assert(!list[i].same_account(list[list.len() - 1]));
            }
        } else {
            assert(without(list, cred) == kept);
        }
    }
}

} // verus!
