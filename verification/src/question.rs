//! Questions and their identifiers.

use vstd::prelude::*;

use crate::account::AccountId;

verus! {

/// Identifier of a question; assigned by the store, unique and
/// monotonically increasing within a store instance, never reused.
#[derive(Debug, Clone, Copy, PartialEq, Eq, Structural)]
pub struct QuestionId(pub u64);

/// The fields a collaborator supplies when creating a question.
#[derive(Debug, PartialEq, Eq)]
pub struct NewQuestion {
    pub title: String,
    pub content: String,
    pub tags: Vec<String>,
}

/// A question as stored: the supplied fields plus the store-assigned
/// identifier and the account that created it.
#[derive(Debug, PartialEq, Eq)]
pub struct Question {
    pub id: QuestionId,
    pub title: String,
    pub content: String,
    pub tags: Vec<String>,
    pub owner: AccountId,
}

/// The mathematical content of a question: its identifier, its texts,
/// its tags and its owner, all as plain sequences and numbers.
#[verifier::ext_equal]
pub struct QuestionView {
    pub id: u64,
    pub title: Seq<char>,
    pub content: Seq<char>,
    pub tags: Seq<Seq<char>>,
    pub owner: u64,
}

impl View for Question {
    type V = QuestionView;

    open spec fn view(&self) -> QuestionView {
        QuestionView {
            id: self.id.0,
            title: self.title@,
            content: self.content@,
            tags: self.tags.deep_view(),
            owner: self.owner.0,
        }
    }
}

/// The tags of two vectors whose elements are clones of one another have
/// the same deep view.
proof fn lemma_cloned_tags_deep_view(a: Vec<String>, b: Vec<String>)
    requires
        a@.len() == b@.len(),
        forall|i: int| #![all_triggers] 0 <= i < a@.len() ==> cloned::<String>(a@[i], b@[i]),
    ensures
        a.deep_view() == b.deep_view(),
{
    assert forall|i: int| 0 <= i < a@.len() implies a.deep_view()[i] == b.deep_view()[i] by {
        assert(cloned::<String>(a@[i], b@[i]));
        assert(a@[i] == b@[i]);
    }
    assert(a.deep_view() =~= b.deep_view());
}

impl Clone for NewQuestion {
    /// A clone carries the same title, content and tags as the original.
    fn clone(&self) -> (r: Self)
        ensures
            r.title == self.title,
            r.content == self.content,
            r.tags.deep_view() == self.tags.deep_view(),
    {
        let r = NewQuestion {
            title: self.title.clone(),
            content: self.content.clone(),
            tags: self.tags.clone(),
        };
        proof {
            lemma_cloned_tags_deep_view(self.tags, r.tags);
        }
        r
    }
}

impl Clone for Question {
    /// A clone states exactly what the original states.
    fn clone(&self) -> (r: Self)
        ensures
            r@ == self@,
    {
        let r = Question {
            id: self.id,
            title: self.title.clone(),
            content: self.content.clone(),
            tags: self.tags.clone(),
            owner: self.owner,
        };
        proof {
            lemma_cloned_tags_deep_view(self.tags, r.tags);
            assert(r@ =~= self@);
        }
        r
    }
}

} // verus!
