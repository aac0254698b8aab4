//! The backing state of the in-memory store backend.
//!
//! Three collections — questions, answers, an account list — and one
//! monotonically increasing identifier counter per store-assigned entity
//! kind. Identifiers start at one and are never reused, even after
//! deletion.

use vstd::prelude::*;

use std::collections::HashMap;

use crate::account::{Account, AccountId};
use crate::answer::Answer;
use crate::question::Question;

verus! {

/// The collections and counters of the in-memory backend.
#[derive(Debug)]
pub struct MemoryStore {
    pub questions: HashMap<u64, Question>,
    pub answers: HashMap<u64, Answer>,
    pub accounts: Vec<Account>,
    pub question_index: u64,
    pub answer_index: u64,
}

impl MemoryStore {
    /// Well-formedness: every stored entity carries the identifier it is
    /// keyed under, every assigned identifier lies below the counter of
    /// its kind, stored accounts are numbered by their position, and
    /// emails are unique.
    pub open spec fn wf(&self) -> bool {
        &&& 1 <= self.question_index
        &&& 1 <= self.answer_index
        &&& forall|k: u64|
            #[trigger] self.questions@.contains_key(k) ==> self.questions@[k].id.0 == k && 1 <= k
                < self.question_index
        &&& forall|k: u64|
            #[trigger] self.answers@.contains_key(k) ==> self.answers@[k].id.0 == k && 1 <= k
                < self.answer_index
        &&& forall|i: int|
            0 <= i < self.accounts@.len() ==> (#[trigger] self.accounts@[i]).id == Some(
                AccountId((i + 1) as u64),
            )
        &&& forall|i: int, j: int|
            0 <= i < j < self.accounts@.len() ==> self.accounts@[i].email@
                != self.accounts@[j].email@
    }

    /// A fresh store: no entities, both counters at one.
    pub fn new() -> (r: MemoryStore)
        ensures
            r.wf(),
            r.questions@ == Map::<u64, Question>::empty(),
            r.answers@ == Map::<u64, Answer>::empty(),
            r.accounts@ == Seq::<Account>::empty(),
            r.question_index == 1,
            r.answer_index == 1,
    {
        MemoryStore {
            questions: HashMap::new(),
            answers: HashMap::new(),
            accounts: Vec::new(),
            question_index: 1,
            answer_index: 1,
        }
    }
}

impl Default for MemoryStore {
    /// The default store is a fresh one.
    fn default() -> (r: Self)
        ensures
            r.wf(),
            r.questions@ == Map::<u64, Question>::empty(),
            r.answers@ == Map::<u64, Answer>::empty(),
            r.accounts@ == Seq::<Account>::empty(),
            r.question_index == 1,
            r.answer_index == 1,
    {
        MemoryStore::new()
    }
}

} // verus!
