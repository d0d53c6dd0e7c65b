//! Authentication and authorization core of the quiz service: credential
//! hashing, signed tokens, the per-request guard and the ownership checks that
//! gate mutations.

pub mod auth;
pub mod database;
pub mod graphql;
pub mod hashing;
pub mod models;
pub mod text;
pub mod utils;
