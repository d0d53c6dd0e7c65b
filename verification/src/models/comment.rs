use crate::models::user::User;
use vstd::prelude::*;

verus! {

/// A comment as it is stored.
#[derive(Debug, Clone, PartialEq, Eq)]
pub struct CommentDB {
    pub id: i32,
    pub content: String,
    pub suggested_answer: Option<i32>,
    pub users_fk: i32,
    pub questions_fk: i32,
    pub likes: i32,
}

/// A comment as it is shown, with its author in place of the author's id.
#[derive(Debug, Clone, PartialEq, Eq)]
pub struct Comment {
    pub id: i32,
    pub content: String,
    pub suggested_answer: Option<i32>,
    pub user: User,
    pub likes: i32,
}

impl Comment {
    /// The comment shown for a stored comment and its author.
    pub open spec fn joined(parts: (CommentDB, User)) -> Comment {
        Comment {
            id: parts.0.id,
            content: parts.0.content,
            suggested_answer: parts.0.suggested_answer,
            user: parts.1,
            likes: parts.0.likes,
        }
    }

    /// Joins a stored comment with its author.
    pub fn from(parts: (CommentDB, User)) -> (r: Comment)
        ensures
            r == Comment::joined(parts),
    {
        let (comment, user) = parts;
        Comment {
            id: comment.id,
            content: comment.content,
            suggested_answer: comment.suggested_answer,
            user: user,
            likes: comment.likes,
        }
    }
}

/// What is needed to store a new comment.
#[derive(Debug, Clone, PartialEq, Eq)]
pub struct InsertableComment {
    pub content: String,
    pub suggested_answer: Option<i32>,
    pub users_fk: i32,
    pub questions_fk: i32,
}

/// What a user sends to comment on a question.
#[derive(Debug, Clone, PartialEq, Eq)]
pub struct NewComment {
    pub content: String,
    pub question: i32,
    pub suggested_answer: Option<i32>,
}

/// What a user sends to delete a comment.
#[derive(Debug, Clone, Copy, PartialEq, Eq, Structural)]
pub struct DeleteComment {
    pub id: i32,
}

/// A value that a form may leave out, set to null, or set.
#[derive(Debug, Clone, Copy, PartialEq, Eq, Structural)]
pub enum Nullable<T> {
    /// The form does not mention the field.
    ImplicitNull,
    /// The form sets the field to null.
    ExplicitNull,
    /// The form sets the field to a value.
    Given(T),
}

impl<T> Nullable<T> {
    /// The change that the form asks for: none, clear, or set.
    pub open spec fn explicit_spec(self) -> Option<Option<T>> {
        match self {
            Nullable::Given(v) => Some(Some(v)),
            Nullable::ExplicitNull => Some(None),
            Nullable::ImplicitNull => None,
        }
    }

    pub fn explicit(self) -> (r: Option<Option<T>>)
        ensures
            r == self.explicit_spec(),
    {
        match self {
            Nullable::Given(v) => Some(Some(v)),
            Nullable::ExplicitNull => Some(None),
            Nullable::ImplicitNull => None,
        }
    }
}

/// What a user sends to change a comment.
#[derive(Debug, Clone, PartialEq, Eq)]
pub struct ModifyCommentForm {
    pub id: i32,
    pub content: Option<String>,
    pub suggested_answer: Nullable<i32>,
}

/// The change to store for a comment: for each field, nothing or its new
/// value.
#[derive(Debug, Clone, PartialEq, Eq)]
pub struct ModifyComment {
    pub id: i32,
    pub content: Option<String>,
    pub suggested_answer: Option<Option<i32>>,
}

impl ModifyCommentForm {
    /// The change that this form asks for.
    pub fn into(self) -> (r: ModifyComment)
        ensures
            r == (ModifyComment {
                id: self.id,
                content: self.content,
                suggested_answer: self.suggested_answer.explicit_spec(),
            }),
    {
        ModifyComment {
            id: self.id,
            content: self.content,
            suggested_answer: self.suggested_answer.explicit(),
        }
    }
}

} // verus!
