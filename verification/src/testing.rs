//! Builder for fixture data: users, articles, comments, tags and the
//! relations between them, checked for consistency before anything is stored.

pub mod error;
pub mod laws;
pub mod operation;
pub mod builder;
pub mod relation;
pub mod rows;
pub mod setup;

pub use builder::TestDataBuilder;
pub use error::{BldrErr, TestErr};
pub use operation::Operation;
pub use setup::{Table, TableSetup, TestData};
