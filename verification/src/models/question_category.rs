use vstd::prelude::*;

verus! {

/// One membership: the question and a category it belongs to.
#[derive(Debug, Clone, Copy, PartialEq, Eq, Structural)]
pub struct QuestionCategory {
    pub question_fk: i32,
    pub category_fk: i32,
}

} // verus!
