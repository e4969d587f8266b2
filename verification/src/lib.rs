//! A small user directory: the records, the rules that turn storage outcomes
//! into domain results, and the mapping of those results to HTTP responses.
//!
//! The layers are the usual three. A [`repository::UserRepository`] runs one
//! statement per operation against a [`table::UserTable`]; a
//! [`service::UserService`] delegates to it; the functions of [`handler`]
//! decode request parts and turn every outcome into a status and a body.

pub mod error;
pub mod model;
pub mod ident;
pub mod table;
pub mod repository;
pub mod service;
pub mod handler;
pub mod laws;
