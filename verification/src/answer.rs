//! Answers and their identifiers.

use vstd::prelude::*;

use crate::question::QuestionId;

verus! {

/// Identifier of an answer; assigned by the store, unique and
/// monotonically increasing within a store instance, never reused.
#[derive(Debug, Clone, Copy, PartialEq, Eq, Structural)]
pub struct AnswerId(pub u64);

/// The fields a collaborator supplies when creating an answer.
#[derive(Debug, PartialEq, Eq)]
pub struct NewAnswer {
    pub content: String,
    pub question_id: QuestionId,
}

/// An answer as stored; never mutated or deleted in this core.
#[derive(Debug, PartialEq, Eq)]
pub struct Answer {
    pub id: AnswerId,
    pub content: String,
    pub question_id: QuestionId,
}

impl Clone for NewAnswer {
    /// A clone carries exactly the fields of the original.
    fn clone(&self) -> (r: Self)
        ensures
            r == *self,
    {
        NewAnswer { content: self.content.clone(), question_id: self.question_id }
    }
}

impl Clone for Answer {
    /// A clone carries exactly the fields of the original.
    fn clone(&self) -> (r: Self)
        ensures
            r == *self,
    {
        Answer { id: self.id, content: self.content.clone(), question_id: self.question_id }
    }
}

} // verus!
