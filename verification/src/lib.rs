//! Domain logic of a Conduit-style blogging backend: request shaping,
//! pagination, authentication decisions and fixture building, all stated
//! over plain values so that the surrounding service only performs I/O.

pub mod api;
pub mod app;
pub mod clock;
pub mod db;
pub mod entity;
pub mod ident;
pub mod middleware;
pub mod repo;
pub mod seed;
pub mod testing;
pub mod text;
