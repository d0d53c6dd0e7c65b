//! The records of the service as plain values.

use vstd::prelude::*;

pub mod category;
pub mod comment;
pub mod comment_user;
pub mod question;
pub mod question_category;
pub mod user;

verus! {

/// A question as one flat row, with its five answers side by side.
#[derive(Debug, Clone, PartialEq, Eq)]
pub struct Question {
    pub id: i32,
    pub text: String,
    pub answer_1: String,
    pub answer_2: String,
    pub answer_3: String,
    pub answer_4: String,
    pub answer_5: String,
    pub correct_answer: Option<i32>,
}

/// What is needed to store a new question.
#[derive(Debug, Clone, PartialEq, Eq)]
pub struct InsertableQuestion {
    pub id: i32,
    pub text: String,
}

} // verus!
