//! The rules behind the HTTP handlers: what a request turns into before it
//! reaches the database, and what a result turns into on the way back.

pub mod article;
pub mod comment;
pub mod error;
pub mod profile;
pub mod tags;
pub mod user;
