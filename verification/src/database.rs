//! What is computed from the rows that the storage layer returns. The
//! statements themselves are run by the caller.

use crate::models::category::Category;
use crate::models::comment::{Comment, CommentDB};
use crate::models::question::{Question, QuestionDB};
use crate::models::user::User;
use vstd::prelude::*;

verus! {

/// Joins stored questions with their categories, pair by pair in order; what
/// is left over of the longer list is dropped.
pub fn join_questions(questions: Vec<QuestionDB>, categories: Vec<Vec<Category>>) -> (r: Vec<
    Question,
>)
    ensures
        r.len() == if questions.len() <= categories.len() {
            questions.len()
        } else {
            categories.len()
        },
        forall|i: int|
            0 <= i < r.len() ==> (#[trigger] r[i]).joins(questions[i], categories[i]),
{
    let mut questions = questions;
    let mut categories = categories;
    let ghost all_questions = questions@;
    let ghost all_categories = categories@;
    // The pairs are taken from the back, so they are joined last first and
    // then put in order.
    let mut joined: Vec<Question> = Vec::new();
    let mut reversed: Vec<Question> = Vec::new();
    let count = if questions.len() <= categories.len() {
        questions.len()
    } else {
        categories.len()
    };
    questions.truncate(count);
    categories.truncate(count);
    while questions.len() > 0
        invariant
            questions.len() == categories.len(),
            questions.len() + reversed.len() == count,
            count <= all_questions.len(),
            count <= all_categories.len(),
            questions@ == all_questions.take(questions.len() as int),
            categories@ == all_categories.take(categories.len() as int),
            forall|i: int|
                0 <= i < reversed.len() ==> (#[trigger] reversed[i]).joins(
                    all_questions[count - 1 - i],
                    all_categories[count - 1 - i],
                ),
        decreases questions.len(),
    {
        let question = questions.pop().unwrap();
        let of_question = categories.pop().unwrap();
        reversed.push(Question::from((question, of_question)));
    }
    while reversed.len() > 0
        invariant
            reversed.len() + joined.len() == count,
            count <= all_questions.len(),
            count <= all_categories.len(),
            forall|i: int|
                0 <= i < reversed.len() ==> (#[trigger] reversed[i]).joins(
                    all_questions[count - 1 - i],
                    all_categories[count - 1 - i],
                ),
            forall|i: int|
                0 <= i < joined.len() ==> (#[trigger] joined[i]).joins(
                    all_questions[i],
                    all_categories[i],
                ),
        decreases reversed.len(),
    {
        let question = reversed.pop().unwrap();
        joined.push(question);
    }
    joined
}

/// Joins stored comments with their authors, row by row in order.
pub fn join_comments(rows: Vec<(CommentDB, User)>) -> (r: Vec<Comment>)
    ensures
        r@ == rows@.map_values(|row: (CommentDB, User)| Comment::joined(row)),
{
    let ghost all_rows = rows@;
    let mut joined: Vec<Comment> = Vec::new();
    for row in remaining: rows.into_iter()
        invariant
            remaining.seq() == all_rows,
            joined@ == all_rows.take(remaining.index() as int).map_values(
                |row: (CommentDB, User)| Comment::joined(row),
            ),
    {
        joined.push(Comment::from(row));
        assert(joined@ =~= all_rows.take(remaining.index() + 1).map_values(
            |row: (CommentDB, User)| Comment::joined(row),
        ));
    }
    assert(all_rows.take(all_rows.len() as int) =~= all_rows);
    joined
}

} // verus!
