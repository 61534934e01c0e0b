//! Rows of the relational schema as plain values.

pub mod article;
pub mod article_tag;
pub mod comment;
pub mod favorited_article;
pub mod follower;
pub mod tag;
pub mod user;
