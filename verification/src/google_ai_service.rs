//! The shapes of the generated-answer service's replies, and the
//! extraction of the answer text.
//!
//! The HTTP exchange itself is a collaborator's job; this core only
//! states what a reply looks like and which part of it becomes an
//! answer's content.

use vstd::prelude::*;

verus! {

/// An error reply of the service.
#[derive(Debug, Default, PartialEq)]
pub struct ErrorMsg {
    pub code: i64,
    pub message: String,
    pub status: String,
}

/// The envelope of an error reply.
#[derive(Debug, Default, PartialEq)]
pub struct APIResponse {
    pub error: ErrorMsg,
}

/// One piece of generated text.
#[derive(Debug, Default, PartialEq)]
pub struct Part {
    pub text: String,
}

/// A span of content: its parts and the role that produced them.
#[derive(Debug, Default, PartialEq)]
pub struct Content {
    pub parts: Vec<Part>,
    pub role: String,
}

/// A safety annotation on generated content.
#[derive(Debug, Default, PartialEq)]
pub struct SafetyRating {
    pub category: String,
    pub probability: String,
}

/// One generated candidate answer.
#[derive(Debug, Default, PartialEq)]
pub struct Candidate {
    pub content: Content,
    pub finish_reason: String,
    pub index: i64,
    pub safety_ratings: Vec<SafetyRating>,
}

/// The service's verdict on the prompt itself.
#[derive(Debug, Default, PartialEq)]
pub struct PromptFeedback {
    pub safety_ratings: Vec<SafetyRating>,
}

/// A successful reply: candidates and prompt feedback.
#[derive(Debug, Default, PartialEq)]
pub struct GoogleAIResponse {
    pub candidates: Vec<Candidate>,
    pub prompt_feedback: PromptFeedback,
}

/// The text of the first part of the first candidate — what becomes the
/// answer's content — or nothing when the reply holds no text.
pub fn first_candidate_text(r: &GoogleAIResponse) -> (t: Option<String>)
    ensures
        t matches Some(s) ==> r.candidates@.len() > 0 && r.candidates@[0].content.parts@.len() > 0
            && s@ == r.candidates@[0].content.parts@[0].text@,
        t is None ==> r.candidates@.len() == 0 || r.candidates@[0].content.parts@.len() == 0,
{
    if r.candidates.len() > 0 {
        let c = &r.candidates[0];
        if c.content.parts.len() > 0 {
            Some(c.content.parts[0].text.clone())
        } else {
            None
        }
    } else {
        None
    }
}

} // verus!
