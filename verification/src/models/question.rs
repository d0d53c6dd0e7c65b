use crate::models::category::Category;
use vstd::prelude::*;

verus! {

/// A question as it is shown, with its answers in order and its categories.
#[derive(Debug, Clone, PartialEq, Eq)]
pub struct Question {
    pub id: i32,
    pub content: String,
    pub answers: Vec<String>,
    pub correct_answer: Option<i32>,
    pub categories: Vec<Category>,
}

/// What a user sends to change a question.
#[derive(Debug, Clone, PartialEq, Eq)]
pub struct ModifyQuestionForm {
    pub context: String,
    pub answers: Vec<String>,
    pub correct_answer: Option<i32>,
}

/// The change to store for a question.
#[derive(Debug, Clone, PartialEq, Eq)]
pub struct ModifyQuestion {
    pub context: String,
    pub answer_1: String,
    pub answer_2: String,
    pub answer_3: String,
    pub answer_4: String,
    pub answer_5: String,
    pub correct_answer: Option<i32>,
}

/// A question as it is stored, with its five answers side by side.
#[derive(Debug, Clone, PartialEq, Eq)]
pub struct QuestionDB {
    pub id: i32,
    pub content: String,
    pub answer_1: String,
    pub answer_2: String,
    pub answer_3: String,
    pub answer_4: String,
    pub answer_5: String,
    pub correct_answer: Option<i32>,
}

impl QuestionDB {
    /// The five answers in their order.
    pub open spec fn answers(self) -> Seq<String> {
        seq![self.answer_1, self.answer_2, self.answer_3, self.answer_4, self.answer_5]
    }
}

impl Question {
    /// Whether this is `stored` with its five answers as one list, in their
    /// order, and with `categories`.
    pub open spec fn joins(self, stored: QuestionDB, categories: Vec<Category>) -> bool {
        &&& self.id == stored.id
        &&& self.content == stored.content
        &&& self.answers@ == stored.answers()
        &&& self.correct_answer == stored.correct_answer
        &&& self.categories == categories
    }

    /// Joins a stored question with its categories.
    pub fn from(parts: (QuestionDB, Vec<Category>)) -> (r: Question)
        ensures
            r.joins(parts.0, parts.1),
    {
        let (q, categories) = parts;
        let mut answers = Vec::new();
        answers.push(q.answer_1);
        answers.push(q.answer_2);
        answers.push(q.answer_3);
        answers.push(q.answer_4);
        answers.push(q.answer_5);
        assert(answers@ =~= parts.0.answers());
        Question {
            id: q.id,
            content: q.content,
            answers,
            correct_answer: q.correct_answer,
            categories: categories,
        }
    }
}

} // verus!
