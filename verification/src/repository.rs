//! The data-access port: the capability interface every request handler
//! holds on a store backend.
//!
//! Each backend models its state as three collections and two identifier
//! counters; every operation's contract is stated against that model.
//! Reads hand back copies, never references into backend state.

use vstd::prelude::*;

use crate::account::{Account, AccountId};
use crate::answer::{Answer, AnswerId, NewAnswer};
use crate::errors::Error;
use crate::question::{NewQuestion, Question, QuestionView};

verus! {

/// Whether `account_id` is the recorded owner of question `qid`; false
/// when the question is absent.
pub open spec fn is_owner(m: Map<u64, QuestionView>, qid: u64, account_id: u64) -> bool {
    m.contains_key(qid) && m[qid].owner == account_id
}

/// Whether `vs` lists exactly the questions of `m`, each one a copy, in
/// ascending identifier order.
pub open spec fn questions_listing(m: Map<u64, QuestionView>, vs: Seq<Question>) -> bool {
    &&& forall|i: int|
        0 <= i < vs.len() ==> m.contains_key((#[trigger] vs[i])@.id) && m[vs[i]@.id] == vs[i]@
    &&& forall|k: u64|
        #[trigger] m.contains_key(k) ==> exists|i: int|
            0 <= i < vs.len() && (#[trigger] vs[i])@.id == k
    &&& forall|i: int, j: int| 0 <= i < j < vs.len() ==> vs[i]@.id < vs[j]@.id
}

/// Whether some stored account carries `email`.
pub open spec fn email_taken(accounts: Seq<Account>, email: Seq<char>) -> bool {
    exists|i: int| 0 <= i < accounts.len() && #[trigger] accounts[i].email@ == email
}

/// The port: CRUD operations on questions, answers and accounts, each a
/// pure read or an owner-scoped mutation, dispatched to whichever backend
/// was selected at startup.
pub trait RepositoryPort: Sized {
    /// The backend's internal well-formedness.
    spec fn inv(&self) -> bool;

    /// The stored questions, keyed by identifier.
    spec fn questions(&self) -> Map<u64, QuestionView>;

    /// The stored answers, keyed by identifier.
    spec fn answers(&self) -> Map<u64, Answer>;

    /// The stored accounts, in insertion order.
    spec fn accounts(&self) -> Seq<Account>;

    /// The next question identifier to be assigned.
    spec fn next_question_id(&self) -> u64;

    /// The next answer identifier to be assigned.
    spec fn next_answer_id(&self) -> u64;

    /// All stored questions, each one a copy, in ascending identifier
    /// order. The pagination arguments are accepted for interface
    /// compatibility; this core returns the whole unordered collection.
    fn get_questions(&self, limit: Option<u64>, offset: u64) -> (r: Result<Vec<Question>, Error>)
        requires
            self.inv(),
        ensures
            r is Ok,
            r matches Ok(v) ==> questions_listing(self.questions(), v@),
    ;

    /// The question stored under `question_id`, or `NotFound`.
    fn get_question(&self, question_id: u64) -> (r: Result<Question, Error>)
        requires
            self.inv(),
        ensures
            r matches Ok(q) ==> self.questions().contains_key(question_id) && q@
                == self.questions()[question_id],
            r matches Err(e) ==> e == Error::NotFound && !self.questions().contains_key(
                question_id,
            ),
    ;

    /// Whether `account_id` is the recorded owner of `question_id`;
    /// false when the question is absent.
    fn is_question_owner(&self, question_id: u64, account_id: &AccountId) -> (r: Result<
        bool,
        Error,
    >)
        requires
            self.inv(),
        ensures
            r matches Ok(b) ==> b == is_owner(self.questions(), question_id, account_id.0),
            r is Ok,
    ;

    /// Stores a new question under the next question identifier, with the
    /// acting account as owner, and returns the created question. Fails
    /// only when the identifier space is exhausted.
    fn add_question(&mut self, new_question: NewQuestion, account_id: AccountId) -> (r: Result<
        Question,
        Error,
    >)
        requires
            old(self).inv(),
        ensures
            final(self).inv(),
            r matches Ok(q) ==> {
                &&& q@ == (QuestionView {
                    id: old(self).next_question_id(),
                    title: new_question.title@,
                    content: new_question.content@,
                    tags: new_question.tags.deep_view(),
                    owner: account_id.0,
                })
                &&& !old(self).questions().contains_key(old(self).next_question_id())
                &&& final(self).questions() == old(self).questions().insert(q@.id, q@)
                &&& final(self).next_question_id() == old(self).next_question_id() + 1
                &&& final(self).answers() == old(self).answers()
                &&& final(self).accounts() == old(self).accounts()
                &&& final(self).next_answer_id() == old(self).next_answer_id()
            },
            r matches Err(e) ==> e == Error::StoreError && *final(self) == *old(self),
            r is Ok <==> old(self).next_question_id() < u64::MAX,
    ;

    /// Replaces the question stored under `id` with the given title,
    /// content and tags, keeping the stored identifier and owner, and
    /// returns the stored value; `NotFound` when `id` is absent. The
    /// caller must have confirmed ownership beforehand.
    fn update_question(&mut self, question: Question, id: u64, account_id: AccountId) -> (r:
        Result<Question, Error>)
        requires
            old(self).inv(),
        ensures
            final(self).inv(),
            r matches Ok(q) ==> {
                &&& old(self).questions().contains_key(id)
                &&& q@ == (QuestionView {
                    id: id,
                    title: question.title@,
                    content: question.content@,
                    tags: question.tags.deep_view(),
                    owner: old(self).questions()[id].owner,
                })
                &&& final(self).questions() == old(self).questions().insert(id, q@)
                &&& final(self).answers() == old(self).answers()
                &&& final(self).accounts() == old(self).accounts()
                &&& final(self).next_question_id() == old(self).next_question_id()
                &&& final(self).next_answer_id() == old(self).next_answer_id()
            },
            r matches Err(e) ==> e == Error::NotFound && !old(self).questions().contains_key(id)
                && *final(self) == *old(self),
    ;

    /// Removes the question stored under `id`; `NotFound` when absent.
    /// The caller must have confirmed ownership beforehand. The assigned
    /// identifier is never reused.
    fn delete_question(&mut self, id: u64, account_id: AccountId) -> (r: Result<bool, Error>)
        requires
            old(self).inv(),
        ensures
            final(self).inv(),
            r matches Ok(b) ==> {
                &&& b
                &&& old(self).questions().contains_key(id)
                &&& final(self).questions() == old(self).questions().remove(id)
                &&& final(self).answers() == old(self).answers()
                &&& final(self).accounts() == old(self).accounts()
                &&& final(self).next_question_id() == old(self).next_question_id()
                &&& final(self).next_answer_id() == old(self).next_answer_id()
            },
            r matches Err(e) ==> e == Error::NotFound && !old(self).questions().contains_key(id)
                && *final(self) == *old(self),
    ;

    /// Stores a new answer under the next answer identifier and returns
    /// it. The parent question is not checked to exist. Fails only when
    /// the identifier space is exhausted.
    fn add_answer(&mut self, new_answer: NewAnswer, account_id: AccountId) -> (r: Result<
        Answer,
        Error,
    >)
        requires
            old(self).inv(),
        ensures
            final(self).inv(),
            r matches Ok(a) ==> {
                &&& a == (Answer {
                    id: AnswerId(old(self).next_answer_id()),
                    content: new_answer.content,
                    question_id: new_answer.question_id,
                })
                &&& !old(self).answers().contains_key(old(self).next_answer_id())
                &&& final(self).answers() == old(self).answers().insert(a.id.0, a)
                &&& final(self).next_answer_id() == old(self).next_answer_id() + 1
                &&& final(self).questions() == old(self).questions()
                &&& final(self).accounts() == old(self).accounts()
                &&& final(self).next_question_id() == old(self).next_question_id()
            },
            r matches Err(e) ==> e == Error::StoreError && *final(self) == *old(self),
            r is Ok <==> old(self).next_answer_id() < u64::MAX,
    ;

    /// Appends an account, assigning the next position-based identifier,
    /// unless its email is already registered.
    fn add_account(&mut self, account: Account) -> (r: Result<bool, Error>)
        requires
            old(self).inv(),
        ensures
            final(self).inv(),
            r matches Ok(b) ==> {
                &&& b
                &&& !email_taken(old(self).accounts(), account.email@)
                &&& final(self).accounts() == old(self).accounts().push(
                    (Account {
                        id: Some(AccountId((old(self).accounts().len() + 1) as u64)),
                        email: account.email,
                        password: account.password,
                    }),
                )
                &&& final(self).questions() == old(self).questions()
                &&& final(self).answers() == old(self).answers()
                &&& final(self).next_question_id() == old(self).next_question_id()
                &&& final(self).next_answer_id() == old(self).next_answer_id()
            },
            r matches Err(e) ==> *final(self) == *old(self) && (e == Error::DuplicateAccount
                ==> email_taken(old(self).accounts(), account.email@)) && (e
                == Error::DuplicateAccount || e == Error::StoreError),
            email_taken(old(self).accounts(), account.email@) ==> r == Err::<bool, Error>(
                Error::DuplicateAccount,
            ),
            r is Ok <==> !email_taken(old(self).accounts(), account.email@) && old(
                self,
            ).accounts().len() < usize::MAX,
    ;

    /// The account stored under `email`, a copy with its assigned
    /// identifier present; `NotFound` when no account carries `email`.
    fn get_account(&self, email: String) -> (r: Result<Account, Error>)
        requires
            self.inv(),
        ensures
            r matches Ok(a) ==> {
                &&& email_taken(self.accounts(), email@)
                &&& exists|i: int|
                    0 <= i < self.accounts().len() && #[trigger] self.accounts()[i] == a
                &&& a.email@ == email@
                &&& a.id is Some
            },
            r matches Err(e) ==> e == Error::NotFound && !email_taken(self.accounts(), email@),
    ;
}

/// After a question is stored with `owner` as its recorded owner, the
/// ownership check holds for `owner` and fails for every other account.
pub proof fn lemma_owner_after_add(
    m: Map<u64, QuestionView>,
    id: u64,
    q: QuestionView,
    owner: u64,
    other: u64,
)
    requires
        q.owner == owner,
        other != owner,
    ensures
        is_owner(m.insert(id, q), id, owner),
        !is_owner(m.insert(id, q), id, other),
{
}

/// A deleted question is gone: a following lookup finds nothing, which
/// the port reports as `NotFound`.
pub proof fn lemma_deleted_question_not_found(m: Map<u64, QuestionView>, id: u64)
    ensures
        !m.remove(id).contains_key(id),
{
}

/// Identifier assignment is gapless and never repeats: from a store
/// whose assigned question identifiers are exactly `1 .. next`, an
/// insert stores under `next` — an identifier never assigned before —
/// and leaves exactly `1 .. next + 1` assigned. Hence any run of inserts
/// from a fresh store yields distinct identifiers, gapless from one, and
/// no identifier is ever assigned twice.
pub proof fn lemma_gapless_question_ids(m: Map<u64, QuestionView>, next: u64, q: QuestionView)
    requires
        1 <= next < u64::MAX,
        forall|k: u64| #[trigger] m.contains_key(k) <==> 1 <= k < next,
    ensures
        !m.contains_key(next),
        forall|k: u64| #[trigger] m.insert(next, q).contains_key(k) <==> 1 <= k < next + 1,
{
    assert forall|k: u64| #[trigger] m.insert(next, q).contains_key(k) <==> 1 <= k < next + 1 by {
        assert(m.contains_key(k) <==> 1 <= k < next);
    }
}

/// The question map after a run of inserts from counter value `c0`: the
/// `j`-th insert stores its question under identifier `c0 + j`, exactly
/// as the port's add operation does — it stores under the counter and
/// increments it.
pub open spec fn after_inserts(
    m: Map<u64, QuestionView>,
    c0: u64,
    qs: Seq<QuestionView>,
) -> Map<u64, QuestionView>
    decreases qs.len(),
{
    if qs.len() == 0 {
        m
    } else {
        after_inserts(m, c0, qs.drop_last()).insert((c0 + qs.len() - 1) as u64, qs.last())
    }
}

/// A run of inserts, with no other writers, against a store whose
/// assigned question identifiers are exactly `1 .. c0` assigns the
/// pairwise-distinct, gapless identifiers `c0 .. c0 + n`, each one
/// fresh at its turn — no identifier is ever assigned twice — and
/// leaves exactly `1 .. c0 + n` assigned.
pub proof fn lemma_insert_run_gapless(m: Map<u64, QuestionView>, c0: u64, qs: Seq<QuestionView>)
    requires
        1 <= c0,
        c0 + qs.len() <= u64::MAX,
        forall|k: u64| #[trigger] m.contains_key(k) <==> 1 <= k < c0,
    ensures
        forall|k: u64|
            #[trigger] after_inserts(m, c0, qs).contains_key(k) <==> 1 <= k < c0 + qs.len(),
        forall|j: int|
            0 <= j < qs.len() ==> !after_inserts(m, c0, qs.take(j)).contains_key((c0 + j) as u64),
    decreases qs.len(),
{
    if qs.len() > 0 {
        lemma_insert_run_gapless(m, c0, qs.drop_last());
        let prev = after_inserts(m, c0, qs.drop_last());
        let next = (c0 + qs.len() - 1) as u64;
        lemma_gapless_question_ids(prev, next, qs.last());
        assert(after_inserts(m, c0, qs) == prev.insert(next, qs.last()));
        assert forall|j: int|
            0 <= j < qs.len() implies !after_inserts(m, c0, qs.take(j)).contains_key(
            (c0 + j) as u64,
        ) by {
            if j == qs.len() - 1 {
                assert(qs.take(j) =~= qs.drop_last());
                assert(!prev.contains_key(next));
            } else {
                assert(qs.take(j) =~= qs.drop_last().take(j));
            }
        }
    }
}

} // verus!
