use vstd::prelude::*;

verus! {

/// The full record of a user. It holds the password hash, so it is used at
/// login only and never handed outward.
#[derive(Debug, Clone, PartialEq, Eq)]
pub struct User {
    pub id: i32,
    pub username: String,
    pub password_hash: String,
    pub nickname: String,
    pub is_admin: bool,
}

/// What is needed to store a new user.
#[derive(Debug, Clone, PartialEq, Eq)]
pub struct InsertableUser {
    pub password_hash: String,
    pub username: String,
    pub nickname: String,
}

/// What a visitor sends to sign up.
#[derive(Debug, Clone, PartialEq, Eq)]
pub struct NewUser {
    pub username: String,
    pub password: String,
    pub nickname: String,
}

/// What a user sends to log in.
#[derive(Debug, Clone, PartialEq, Eq)]
pub struct LoginForm {
    pub username: String,
    pub password: String,
}

/// The pair of tokens handed out at login and at refresh.
#[derive(Debug, Clone, PartialEq, Eq)]
pub struct Tokens {
    pub access_token: String,
    pub refresh_token: String,
}

/// The identity of a user without the password hash: what an authenticated
/// request carries.
#[derive(Debug, Clone, PartialEq, Eq)]
pub struct SafeUser {
    pub id: i32,
    pub username: String,
    pub nickname: String,
    pub is_admin: bool,
}

impl User {
    /// The identity of this user with the password hash left out.
    pub fn safe(&self) -> (r: SafeUser)
        ensures
            r.id == self.id,
            r.username@ == self.username@,
            r.nickname@ == self.nickname@,
            r.is_admin == self.is_admin,
    {
        SafeUser {
            id: self.id,
            username: self.username.clone(),
            nickname: self.nickname.clone(),
            is_admin: self.is_admin,
        }
    }
}

} // verus!
