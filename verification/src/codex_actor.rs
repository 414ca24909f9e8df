//! The pool of Codex credentials: handing them out in turn, taking them back,
//! adding, listing and deleting them.
//!
//! The functions change the pool and say whether it has to be written to the
//! configuration; reading messages, replying and writing are left to the host.
use crate::config::CodexCredential;
use crate::error::ClewdrError;
use std::collections::VecDeque;
use vstd::prelude::*;

verus! {

/// The credentials of the pool, as reported to an administrator.
#[derive(Debug)]
pub struct CodexCredentialInfo {
    pub valid: Vec<CodexCredential>,
    pub exhausted: Vec<CodexCredential>,
}

/// What the pool can be asked to do.
#[derive(Debug)]
pub enum CodexActorMessage {
    /// A credential comes back, with the reason if something went wrong.
    Return(CodexCredential, Option<String>),
    /// A credential is to be added.
    Submit(CodexCredential),
    /// A credential is asked for.
    Request,
    /// A listing is asked for.
    GetStatus,
    /// A credential is to be deleted.
    Delete(CodexCredential),
}

/// What the sender of a message is told.
#[derive(Debug)]
pub enum Reply {
    Nothing,
    Credential(Result<CodexCredential, ClewdrError>),
    Status(CodexCredentialInfo),
    Deleted(Result<(), ClewdrError>),
}

/// What follows from a message: the reply, and the credentials to be written
/// to the configuration where they have to be.
#[derive(Debug)]
pub struct Outcome {
    pub reply: Reply,
    pub save: Option<Vec<CodexCredential>>,
}

/// The pool.
#[derive(Debug)]
pub struct CodexActorState {
    pub valid: VecDeque<CodexCredential>,
    pub exhausted: Vec<CodexCredential>,
}

/// The pool as two sequences: the credentials in rotation, the next one first,
/// and those set aside.
#[verifier::ext_equal]
pub struct Pool {
    pub valid: Seq<CodexCredential>,
    pub exhausted: Seq<CodexCredential>,
}

impl View for CodexActorState {
    type V = Pool;

    open spec fn view(&self) -> Pool {
        Pool { valid: self.valid@, exhausted: self.exhausted@ }
    }
}

impl View for CodexCredentialInfo {
    type V = Pool;

    open spec fn view(&self) -> Pool {
        Pool { valid: self.valid@, exhausted: self.exhausted@ }
    }
}

/// Some credential of `list` names the account of `cred`.
pub open spec fn holds(list: Seq<CodexCredential>, cred: CodexCredential) -> bool {
    exists|i: int| 0 <= i < list.len() && #[trigger] list[i].same_account(cred)
}

/// No two credentials of `list` name the same account.
pub open spec fn distinct(list: Seq<CodexCredential>) -> bool {
    forall|i: int, j: int|
        0 <= i < list.len() && 0 <= j < list.len() && i != j
            ==> !(#[trigger] list[i]).same_account(#[trigger] list[j])
}

/// `list` with its first credential moved to the end.
pub open spec fn rotated(list: Seq<CodexCredential>) -> Seq<CodexCredential> {
    if list.len() == 0 {
        list
    } else {
        list.drop_first().push(list.first())
    }
}

/// `list` with `cred` in place of the first credential of the same account.
pub open spec fn updated(list: Seq<CodexCredential>, cred: CodexCredential) -> Seq<CodexCredential>
    decreases list.len(),
{
    if list.len() == 0 {
        list
    } else if list.first().same_account(cred) {
        seq![cred] + list.drop_first()
    } else {
        seq![list.first()] + updated(list.drop_first(), cred)
    }
}

/// `list` without the credentials of the account of `cred`.
pub open spec fn without(list: Seq<CodexCredential>, cred: CodexCredential) -> Seq<CodexCredential> {
    list.filter(|c: CodexCredential| !c.same_account(cred))
}

impl Pool {
    /// Some credential of the pool names the account of `cred`.
    pub open spec fn has(self, cred: CodexCredential) -> bool {
        holds(self.valid, cred) || holds(self.exhausted, cred)
    }

    /// No two credentials of the pool name the same account.
    pub open spec fn is_distinct(self) -> bool {
        distinct(self.valid + self.exhausted)
    }

    /// What the configuration keeps of the pool.
    pub open spec fn saved(self) -> Seq<CodexCredential> {
        self.valid + self.exhausted
    }

    /// The pool that starts from the credentials of the configuration.
    pub open spec fn started(all: Seq<CodexCredential>) -> Pool {
        Pool { valid: all, exhausted: Seq::empty() }
    }

    pub open spec fn dispatched(self) -> Pool {
        Pool { valid: rotated(self.valid), ..self }
    }

    pub open spec fn collected(self, cred: CodexCredential) -> Pool {
        Pool { valid: updated(self.valid, cred), ..self }
    }

    pub open spec fn accepted(self, cred: CodexCredential) -> Pool {
        if self.has(cred) {
            self
        } else {
            Pool { valid: self.valid.push(cred), ..self }
        }
    }

    pub open spec fn deleted(self, cred: CodexCredential) -> Pool {
        Pool { valid: without(self.valid, cred), exhausted: without(self.exhausted, cred) }
    }

    /// The pool after a message.
    pub open spec fn after(self, message: CodexActorMessage) -> Pool {
        match message {
            CodexActorMessage::Return(cred, _) => self.collected(cred),
            CodexActorMessage::Submit(cred) => self.accepted(cred),
            CodexActorMessage::Request => self.dispatched(),
            CodexActorMessage::GetStatus => self,
            CodexActorMessage::Delete(cred) => self.deleted(cred),
        }
    }

    /// Whether the configuration has to be written after a message.
    pub open spec fn saves_on(self, message: CodexActorMessage) -> bool {
        match message {
            CodexActorMessage::Return(cred, _) => holds(self.valid, cred),
            CodexActorMessage::Submit(cred) => !self.has(cred),
            CodexActorMessage::Request => false,
            CodexActorMessage::GetStatus => false,
            CodexActorMessage::Delete(cred) => self.has(cred),
        }
    }

    /// The reply to a request for a credential.
    pub open spec fn next(self) -> Result<CodexCredential, ClewdrError> {
        if self.valid.len() == 0 {
            Err(ClewdrError::NoCookieAvailable)
        } else {
            Ok(self.valid.first())
        }
    }

    /// The reply to a request to delete.
    pub open spec fn deletion(self, cred: CodexCredential) -> Result<(), ClewdrError> {
        if self.has(cred) {
            Ok(())
        } else {
            Err(
                ClewdrError::UnexpectedNone {
                    msg: "Delete operation did not find the codex credential",
                },
            )
        }
    }

    /// The reply to a message.
    pub open spec fn answers(self, message: CodexActorMessage, reply: Reply) -> bool {
        match message {
            CodexActorMessage::Return(_, _) => reply is Nothing,
            CodexActorMessage::Submit(_) => reply is Nothing,
            CodexActorMessage::Request => reply == Reply::Credential(self.next()),
            CodexActorMessage::GetStatus => reply matches Reply::Status(info) && info@ == self,
            CodexActorMessage::Delete(cred) => reply == Reply::Deleted(self.deletion(cred)),
        }
    }
}

/// Whether some credential of `list` names the account of `cred`.
fn any_same(list: &Vec<CodexCredential>, cred: &CodexCredential) -> (found: bool)
    ensures
        found == holds(list@, *cred),
{
    let mut i: usize = 0;
    while i < list.len()
        invariant
            i <= list@.len(),
            forall|k: int| 0 <= k < i ==> !(#[trigger] list@[k]).same_account(*cred),
        decreases list@.len() - i,
    {
        if list[i] == *cred {
            return true;
        }
        i += 1;
    }
    false
}

/// The position of the first credential of the account of `cred`.
fn position(list: &VecDeque<CodexCredential>, cred: &CodexCredential) -> (at: Option<usize>)
    ensures
        match at {
            Some(i) => {
                &&& i < list@.len()
                &&& list@[i as int].same_account(*cred)
                &&& forall|k: int| 0 <= k < i ==> !(#[trigger] list@[k]).same_account(*cred)
            },
            None => !holds(list@, *cred),
        },
{
    let mut i: usize = 0;
    while i < list.len()
        invariant
            i <= list@.len(),
            forall|k: int| 0 <= k < i ==> !(#[trigger] list@[k]).same_account(*cred),
        decreases list@.len() - i,
    {
        if list[i] == *cred {
            return Some(i);
        }
        i += 1;
    }
    None
}

/// Putting `cred` at the first position of its account is `updated`.
pub(crate) proof fn updated_at(list: Seq<CodexCredential>, cred: CodexCredential, at: int)
    requires
        0 <= at < list.len(),
        list[at].same_account(cred),
        forall|k: int| 0 <= k < at ==> !(#[trigger] list[k]).same_account(cred),
    ensures
        updated(list, cred) == list.update(at, cred),
    decreases list.len(),
{
    if at == 0 {
        assert(updated(list, cred) =~= list.update(at, cred));
    } else {
        let rest = list.drop_first();
        assert(!list[0].same_account(cred));
        assert forall|k: int| 0 <= k < at - 1 implies !(#[trigger] rest[k]).same_account(cred) by {
            assert(rest[k] == list[k + 1]);
        }
        updated_at(rest, cred, at - 1);
        assert(updated(list, cred) =~= list.update(at, cred));
    }
}

/// A list without the account is its own `updated`.
pub(crate) proof fn updated_absent(list: Seq<CodexCredential>, cred: CodexCredential)
    requires
        !holds(list, cred),
    ensures
        updated(list, cred) == list,
    decreases list.len(),
{
    if list.len() > 0 {
        assert(!list[0].same_account(cred));
        let rest = list.drop_first();
        assert forall|k: int| 0 <= k < rest.len() implies !(#[trigger] rest[k]).same_account(
            cred,
        ) by {
            assert(rest[k] == list[k + 1]);
        }
        updated_absent(rest, cred);
        assert(updated(list, cred) =~= list);
    }
}

/// `without` works from left to right.
proof fn without_push(list: Seq<CodexCredential>, next: CodexCredential, cred: CodexCredential)
    ensures
        without(list.push(next), cred) == if next.same_account(cred) {
            without(list, cred)
        } else {
            without(list, cred).push(next)
        },
{
    reveal(Seq::filter);
    assert(list.push(next).drop_last() =~= list);
}

/// Removes the credentials of the account of `cred`. Says whether there were
/// any.
fn remove_same(list: &mut Vec<CodexCredential>, cred: &CodexCredential) -> (found: bool)
    ensures
        final(list)@ == without(old(list)@, *cred),
        found == holds(old(list)@, *cred),
{
    let ghost all = list@;
    let mut found = false;
    let mut kept: Vec<CodexCredential> = Vec::new();
    let mut i: usize = 0;
    proof {
        reveal(Seq::filter);
        assert(all.take(0) =~= Seq::empty());
    }
    while i < list.len()
        invariant
            list@ == all,
            i <= all.len(),
            kept@ == without(all.take(i as int), *cred),
            found == holds(all.take(i as int), *cred),
        decreases all.len() - i,
    {
        proof {
            without_push(all.take(i as int), all[i as int], *cred);
            holds_push(all.take(i as int), all[i as int], *cred);
            assert(all.take(i + 1) =~= all.take(i as int).push(all[i as int]));
        }
        if list[i] == *cred {
            found = true;
        } else {
            kept.push(list[i].clone());
        }
        i += 1;
    }
    assert(all.take(all.len() as int) =~= all);
    *list = kept;
    found
}

proof fn holds_push(list: Seq<CodexCredential>, next: CodexCredential, cred: CodexCredential)
    ensures
        holds(list.push(next), cred) == (holds(list, cred) || next.same_account(cred)),
{
    let longer = list.push(next);
    if holds(list, cred) {
        let i = choose|i: int| 0 <= i < list.len() && #[trigger] list[i].same_account(cred);
        assert(longer[i].same_account(cred));
    }
    if next.same_account(cred) {
        assert(longer[list.len() as int].same_account(cred));
    }
    if holds(longer, cred) {
        let i = choose|i: int| 0 <= i < longer.len() && #[trigger] longer[i].same_account(cred);
        if i < list.len() {
            assert(list[i].same_account(cred));
        }
    }
}

/// The operations of the pool.
pub struct CodexActor;

impl CodexActor {
    /// The credentials that the configuration keeps: those in rotation, then
    /// those set aside.
    pub fn save(state: &CodexActorState) -> (credentials: Vec<CodexCredential>)
        ensures
            credentials@ == state@.saved(),
    {
        let mut credentials: Vec<CodexCredential> = Vec::new();
        let mut i: usize = 0;
        while i < state.valid.len()
            invariant
                i <= state.valid@.len(),
                credentials@ == state.valid@.take(i as int),
            decreases state.valid@.len() - i,
        {
            credentials.push(state.valid[i].clone());
            i += 1;
        }
        let mut k: usize = 0;
        while k < state.exhausted.len()
            invariant
                k <= state.exhausted@.len(),
                credentials@ == state.valid@ + state.exhausted@.take(k as int),
            decreases state.exhausted@.len() - k,
        {
            credentials.push(state.exhausted[k].clone());
            k += 1;
        }
        credentials
    }

    /// The number of credentials in rotation and of those set aside.
    pub fn log(state: &CodexActorState) -> (counts: (usize, usize))
        ensures
            counts.0 == state@.valid.len(),
            counts.1 == state@.exhausted.len(),
    {
        (state.valid.len(), state.exhausted.len())
    }

    /// Hands out the next credential in turn, which moves to the end of the
    /// rotation.
    pub fn dispatch(state: &mut CodexActorState) -> (result: Result<CodexCredential, ClewdrError>)
        ensures
            result == old(state)@.next(),
            final(state)@ == old(state)@.dispatched(),
    {
        match state.valid.pop_front() {
            Some(cred) => {
                state.valid.push_back(cred.clone());
                assert(old(state).valid@.subrange(1, old(state).valid@.len() as int)
                    =~= old(state).valid@.drop_first());
                Ok(cred)
            },
            None => Err(ClewdrError::NoCookieAvailable),
        }
    }

    /// Takes a credential back. It stays in rotation, at its place, whatever
    /// the reason it came back with: rate limits of the backend pass by
    /// themselves. Says whether the pool has to be saved, which is when it
    /// knows the account.
    pub fn collect(
        state: &mut CodexActorState,
        cred: CodexCredential,
        reason: Option<String>,
    ) -> (save: bool)
        ensures
            final(state)@ == old(state)@.collected(cred),
            save == holds(old(state)@.valid, cred),
    {
        match position(&state.valid, &cred) {
            Some(at) => {
                proof {
                    updated_at(state.valid@, cred, at as int);
                }
                let ghost before = state.valid@;
                state.valid.remove(at);
                state.valid.insert(at, cred);
                assert(state.valid@ =~= before.update(at as int, cred));
                true
            },
            None => {
                proof {
                    updated_absent(state.valid@, cred);
                }
                false
            },
        }
    }

    /// Adds a credential at the end of the rotation, unless the pool already
    /// has its account. Says whether it was added, and so has to be saved.
    pub fn accept(state: &mut CodexActorState, cred: CodexCredential) -> (save: bool)
        ensures
            final(state)@ == old(state)@.accepted(cred),
            save == !old(state)@.has(cred),
    {
        if position(&state.valid, &cred).is_some() || any_same(&state.exhausted, &cred) {
            return false;
        }
        state.valid.push_back(cred);
        true
    }

    /// Lists the credentials of the pool.
    pub fn report(state: &CodexActorState) -> (info: CodexCredentialInfo)
        ensures
            info@ == state@,
    {
        let mut valid: Vec<CodexCredential> = Vec::new();
        let mut i: usize = 0;
        while i < state.valid.len()
            invariant
                i <= state.valid@.len(),
                valid@ == state.valid@.take(i as int),
            decreases state.valid@.len() - i,
        {
            valid.push(state.valid[i].clone());
            i += 1;
        }
        let mut exhausted: Vec<CodexCredential> = Vec::new();
        let mut k: usize = 0;
        while k < state.exhausted.len()
            invariant
                k <= state.exhausted@.len(),
                exhausted@ == state.exhausted@.take(k as int),
            decreases state.exhausted@.len() - k,
        {
            exhausted.push(state.exhausted[k].clone());
            k += 1;
        }
        CodexCredentialInfo { valid, exhausted }
    }

    /// Deletes every credential of the account of `cred`. The pool has to be
    /// saved where that succeeds; otherwise it is unchanged.
    pub fn delete(state: &mut CodexActorState, cred: CodexCredential) -> (result: Result<
        (),
        ClewdrError,
    >)
        ensures
            final(state)@ == old(state)@.deleted(cred),
            result == old(state)@.deletion(cred),
            result is Err ==> final(state)@ == old(state)@,
    {
        proof {
            deleting_absent_changes_nothing(state@, cred);
        }
        let ghost all = state.valid@;
        let mut found = false;
        let len = state.valid.len();
        let mut i: usize = 0;
        proof {
            reveal(Seq::filter);
            assert(all.take(0) =~= Seq::empty());
            assert(all.skip(0) + without(all.take(0), cred) =~= all);
        }
        while i < len
            invariant
                i <= len == all.len(),
                state.valid@ == all.skip(i as int) + without(all.take(i as int), cred),
                state.exhausted@ == old(state).exhausted@,
                found == holds(all.take(i as int), cred),
            decreases len - i,
        {
            proof {
                without_push(all.take(i as int), all[i as int], cred);
                holds_push(all.take(i as int), all[i as int], cred);
                assert(all.take(i + 1) =~= all.take(i as int).push(all[i as int]));
            }
            if let Some(first) = state.valid.pop_front() {
                assert(first == all[i as int]);
                if first == cred {
                    found = true;
                } else {
                    state.valid.push_back(first);
                }
                assert(state.valid@ =~= all.skip(i + 1) + without(all.take(i + 1), cred));
            }
            i += 1;
        }
        assert(all.take(all.len() as int) =~= all);
        assert(state.valid@ =~= without(all, cred));
        if remove_same(&mut state.exhausted, &cred) {
            found = true;
        }
        if found {
            Ok(())
        } else {
            Err(
                ClewdrError::UnexpectedNone {
                    msg: "Delete operation did not find the codex credential",
                },
            )
        }
    }

    /// The pool at start: every credential of the configuration is in
    /// rotation.
    pub fn pre_start(all: Vec<CodexCredential>) -> (state: CodexActorState)
        ensures
            state@ == Pool::started(all@),
    {
        let mut valid: VecDeque<CodexCredential> = VecDeque::new();
        for cred in it: all
            invariant
                valid@ == it.seq().take(it.index() as int),
                it.seq() == all@,
        {
            valid.push_back(cred);
        }
        CodexActorState { valid, exhausted: Vec::new() }
    }

    /// Handles one message.
    pub fn handle(state: &mut CodexActorState, message: CodexActorMessage) -> (outcome: Outcome)
        ensures
            final(state)@ == old(state)@.after(message),
            old(state)@.answers(message, outcome.reply),
            match outcome.save {
                Some(credentials) => {
                    &&& old(state)@.saves_on(message)
                    &&& credentials@ == final(state)@.saved()
                },
                None => !old(state)@.saves_on(message),
            },
    {
        let reply: Reply;
        let changed: bool;
        match message {
            CodexActorMessage::Return(cred, reason) => {
                changed = Self::collect(state, cred, reason);
                reply = Reply::Nothing;
            },
            CodexActorMessage::Submit(cred) => {
                changed = Self::accept(state, cred);
                reply = Reply::Nothing;
            },
            CodexActorMessage::Request => {
                changed = false;
                reply = Reply::Credential(Self::dispatch(state));
            },
            CodexActorMessage::GetStatus => {
                changed = false;
                reply = Reply::Status(Self::report(state));
            },
            CodexActorMessage::Delete(cred) => {
                let result = Self::delete(state, cred);
                changed = result.is_ok();
                reply = Reply::Deleted(result);
            },
        }
        let save = if changed {
            Some(Self::save(state))
        } else {
            None
        };
        Outcome { reply, save }
    }

    /// The credentials to be written to the configuration when the pool stops.
    pub fn post_stop(state: &CodexActorState) -> (credentials: Vec<CodexCredential>)
        ensures
            credentials@ == state@.saved(),
    {
        Self::save(state)
    }
}

/// Deleting an account that the pool does not have changes nothing.
pub proof fn deleting_absent_changes_nothing(pool: Pool, cred: CodexCredential)
    ensures
        !pool.has(cred) ==> pool.deleted(cred) == pool,
{
    if !pool.has(cred) {
        without_absent(pool.valid, cred);
        without_absent(pool.exhausted, cred);
    }
}

proof fn without_absent(list: Seq<CodexCredential>, cred: CodexCredential)
    requires
        !holds(list, cred),
    ensures
        without(list, cred) == list,
    decreases list.len(),
{
    reveal(Seq::filter);
    if list.len() > 0 {
        let init = list.drop_last();
        assert(list =~= init.push(list.last()));
        holds_push(init, list.last(), cred);
        without_absent(init, cred);
        without_push(init, list.last(), cred);
    }
}

} // verus!
