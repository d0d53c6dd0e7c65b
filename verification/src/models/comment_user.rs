use vstd::prelude::*;

verus! {

/// One like: the comment and the user who likes it.
#[derive(Debug, Clone, Copy, PartialEq, Eq, Structural)]
pub struct CommentUser {
    pub comment_fk: i32,
    pub user_fk: i32,
}

} // verus!
