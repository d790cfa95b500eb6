//! Core of a song catalog service: typed commands, their validation, the
//! semantics of the data layer, and the mapping of outcomes to responses.

pub mod error;
pub mod model;
pub mod ident;
pub mod mapper;
pub mod table;
pub mod store;
pub mod handler;
pub mod query;
pub mod fault;
pub mod laws;
