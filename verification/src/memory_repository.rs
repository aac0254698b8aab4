//! The in-memory backend of the data-access port.
//!
//! A sequential store over plain collections; the surrounding process
//! shares it between request-handling tasks behind a reader/writer lock
//! and hands each operation exclusive or shared access accordingly.

use vstd::prelude::*;

use crate::account::{Account, AccountId};
use crate::answer::{Answer, AnswerId, NewAnswer};
use crate::errors::Error;
use crate::memory_store::MemoryStore;
use crate::question::{NewQuestion, Question, QuestionId, QuestionView};
use crate::repository::{email_taken, is_owner, RepositoryPort};

verus! {

broadcast use vstd::std_specs::hash::group_hash_axioms;

/// The in-memory store backend.
#[derive(Debug)]
pub struct MemoryRepository {
    pub store: MemoryStore,
}

/// The questions of a store, as a map from identifier to question view.
pub open spec fn questions_view(s: &MemoryStore) -> Map<u64, QuestionView> {
    s.questions@.map_values(|q: Question| q@)
}

impl MemoryRepository {
    /// A repository over a fresh, empty store.
    pub fn new() -> (r: MemoryRepository)
        ensures
            r.inv(),
            r.questions() == Map::<u64, QuestionView>::empty(),
            r.answers() == Map::<u64, Answer>::empty(),
            r.accounts() == Seq::<Account>::empty(),
            r.next_question_id() == 1,
            r.next_answer_id() == 1,
    {
        let r = MemoryRepository { store: MemoryStore::new() };
        proof {
            assert(r.questions() =~= Map::<u64, QuestionView>::empty());
        }
        r
    }
}

impl Default for MemoryRepository {
    /// The default repository is a fresh one.
    fn default() -> (r: Self)
        ensures
            r.inv(),
            r.questions() == Map::<u64, QuestionView>::empty(),
            r.answers() == Map::<u64, Answer>::empty(),
            r.accounts() == Seq::<Account>::empty(),
            r.next_question_id() == 1,
            r.next_answer_id() == 1,
    {
        MemoryRepository::new()
    }
}

impl RepositoryPort for MemoryRepository {
    open spec fn inv(&self) -> bool {
        self.store.wf()
    }

    open spec fn questions(&self) -> Map<u64, QuestionView> {
        questions_view(&self.store)
    }

    open spec fn answers(&self) -> Map<u64, Answer> {
        self.store.answers@
    }

    open spec fn accounts(&self) -> Seq<Account> {
        self.store.accounts@
    }

    open spec fn next_question_id(&self) -> u64 {
        self.store.question_index
    }

    open spec fn next_answer_id(&self) -> u64 {
        self.store.answer_index
    }

    fn get_questions(&self, _limit: Option<u64>, _offset: u64) -> (r: Result<Vec<Question>, Error>)
    {
        let mut v: Vec<Question> = Vec::new();
        let n = self.store.question_index;
        let mut k: u64 = 1;
        while k < n
            invariant
                1 <= k <= n,
                n == self.store.question_index,
                self.store.wf(),
                forall|i: int|
                    0 <= i < v@.len() ==> self.questions().contains_key((#[trigger] v@[i])@.id)
                        && self.questions()[v@[i]@.id] == v@[i]@ && v@[i]@.id < k,
                forall|kk: u64|
                    1 <= kk < k && #[trigger] self.questions().contains_key(kk) ==> exists|i: int|
                        0 <= i < v@.len() && (#[trigger] v@[i])@.id == kk,
                forall|i: int, j: int| 0 <= i < j < v@.len() ==> v@[i]@.id < v@[j]@.id,
            decreases n - k,
        {
            match self.store.questions.get(&k) {
                Some(q) => {
                    let c = q.clone();
                    assert(c@ == self.questions()[k]);
                    assert(c@.id == k);
                    let ghost old_v = v@;
                    v.push(c);
                    proof {
                        assert forall|kk: u64|
                            1 <= kk < k + 1 && #[trigger] self.questions().contains_key(
                                kk,
                            ) implies exists|i: int|
                            0 <= i < v@.len() && (#[trigger] v@[i])@.id == kk by {
                            if kk == k {
                                assert(v@[v@.len() - 1]@.id == kk);
                            } else {
                                assert(exists|i: int|
                                    0 <= i < old_v.len() && (#[trigger] old_v[i])@.id == kk);
                                let i0 = choose|i: int|
                                    0 <= i < old_v.len() && (#[trigger] old_v[i])@.id == kk;
                                assert(v@[i0]@.id == kk);
                            }
                        }
                    }
                },
                None => {
                    assert(!self.questions().contains_key(k));
                },
            }
            k += 1;
        }
        proof {
            assert forall|kk: u64| #[trigger] self.questions().contains_key(kk) implies 1 <= kk
                < n by {
                assert(self.store.questions@.contains_key(kk));
            }
            assert(forall|i: int|
                0 <= i < v@.len() ==> self.questions().contains_key((#[trigger] v@[i])@.id)
                    && self.questions()[v@[i]@.id] == v@[i]@);
            assert(forall|kk: u64|
                #[trigger] self.questions().contains_key(kk) ==> exists|i: int|
                    0 <= i < v@.len() && (#[trigger] v@[i])@.id == kk);
            assert(forall|i: int, j: int| 0 <= i < j < v@.len() ==> v@[i]@.id < v@[j]@.id);
            assert(crate::repository::questions_listing(self.questions(), v@));
        }
        Ok(v)
    }

    fn get_question(&self, question_id: u64) -> (r: Result<Question, Error>) {
        match self.store.questions.get(&question_id) {
            None => {
                assert(!self.questions().contains_key(question_id));
                Err(Error::NotFound)
            },
            Some(question) => {
                assert(question@ == self.questions()[question_id]);
                Ok(question.clone())
            },
        }
    }

    fn is_question_owner(&self, question_id: u64, account_id: &AccountId) -> (r: Result<
        bool,
        Error,
    >) {
        match self.store.questions.get(&question_id) {
            None => {
                assert(!self.questions().contains_key(question_id));
                assert(!is_owner(self.questions(), question_id, account_id.0));
                Ok(false)
            },
            Some(question) => {
                assert(question@ == self.questions()[question_id]);
                Ok(question.owner.0 == account_id.0)
            },
        }
    }

    fn add_question(&mut self, new_question: NewQuestion, account_id: AccountId) -> (r: Result<
        Question,
        Error,
    >) {
        if self.store.question_index == u64::MAX {
            return Err(Error::StoreError);
        }
        let question_id = self.store.question_index;
        self.store.question_index = question_id + 1;
        let question = Question {
            id: QuestionId(question_id),
            title: new_question.title,
            content: new_question.content,
            tags: new_question.tags,
            owner: account_id,
        };
        let stored = question.clone();
        assert(!self.store.questions@.contains_key(question_id));
        self.store.questions.insert(question_id, stored);
        proof {
            assert(self.questions() =~= old(self).questions().insert(question_id, question@));
        }
        Ok(question)
    }

    fn update_question(&mut self, question: Question, id: u64, _account_id: AccountId) -> (r:
        Result<Question, Error>) {
        let owner = match self.store.questions.get(&id) {
            None => {
                assert(!self.questions().contains_key(id));
                return Err(Error::NotFound);
            },
            Some(stored) => {
                assert(stored@ == self.questions()[id]);
                stored.owner
            },
        };
        let replacement = Question {
            id: QuestionId(id),
            title: question.title,
            content: question.content,
            tags: question.tags,
            owner,
        };
        let stored = replacement.clone();
        self.store.questions.insert(id, stored);
        proof {
            assert(self.questions() =~= old(self).questions().insert(id, replacement@));
        }
        Ok(replacement)
    }

    fn delete_question(&mut self, id: u64, _account_id: AccountId) -> (r: Result<bool, Error>) {
        if !self.store.questions.contains_key(&id) {
            assert(!self.questions().contains_key(id));
            return Err(Error::NotFound);
        }
        self.store.questions.remove(&id);
        proof {
            assert(self.questions() =~= old(self).questions().remove(id));
        }
        Ok(true)
    }

    fn add_answer(&mut self, new_answer: NewAnswer, _account_id: AccountId) -> (r: Result<
        Answer,
        Error,
    >) {
        if self.store.answer_index == u64::MAX {
            return Err(Error::StoreError);
        }
        let answer_id = self.store.answer_index;
        self.store.answer_index = answer_id + 1;
        let answer = Answer {
            id: AnswerId(answer_id),
            content: new_answer.content,
            question_id: new_answer.question_id,
        };
        let stored = answer.clone();
        assert(!self.store.answers@.contains_key(answer_id));
        self.store.answers.insert(answer_id, stored);
        Ok(answer)
    }

    fn add_account(&mut self, account: Account) -> (r: Result<bool, Error>) {
        let n = self.store.accounts.len();
        let mut found: bool = false;
        let mut i: usize = 0;
        while i < n
            invariant
                0 <= i <= n,
                n == self.store.accounts@.len(),
                !found ==> forall|j: int|
                    0 <= j < i ==> (#[trigger] self.store.accounts@[j]).email@ != account.email@,
                found ==> email_taken(self.store.accounts@, account.email@),
            decreases n - i,
        {
            if self.store.accounts[i].email == account.email {
                found = true;
                assert(self.store.accounts@[i as int].email@ == account.email@);
            }
            i += 1;
        }
        if found {
            return Err(Error::DuplicateAccount);
        }
        assert(!email_taken(self.store.accounts@, account.email@));
        if n == usize::MAX {
            return Err(Error::StoreError);
        }
        let assigned = Account {
            id: Some(AccountId(n as u64 + 1)),
            email: account.email,
            password: account.password,
        };
        self.store.accounts.push(assigned);
        Ok(true)
    }

    fn get_account(&self, email: String) -> (r: Result<Account, Error>) {
        let n = self.store.accounts.len();
        let mut found: usize = n;
        let mut i: usize = 0;
        while i < n
            invariant
                0 <= i <= n,
                n == self.store.accounts@.len(),
                found == n || (found < n && self.store.accounts@[found as int].email@ == email@),
                found == n ==> forall|j: int|
                    0 <= j < i ==> (#[trigger] self.store.accounts@[j]).email@ != email@,
            decreases n - i,
        {
            if found == n && self.store.accounts[i].email == email {
                found = i;
            }
            i += 1;
        }
        if found < n {
            let a = self.store.accounts[found].clone();
            assert(self.store.wf());
            assert(a.id is Some);
            Ok(a)
        } else {
            assert(!email_taken(self.store.accounts@, email@));
            Err(Error::NotFound)
        }
    }
}

} // verus!
