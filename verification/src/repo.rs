//! What goes into a query and what is made of its result.

pub mod article;
pub mod check;
pub mod comment;
pub mod tag;
pub mod user;
