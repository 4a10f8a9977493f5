//! A verified model of a minimal person registry: create, list, get, update and
//! delete over a single table whose rows carry a server-assigned id and a unique
//! national id, together with the mapping from each operation's outcome to an
//! HTTP status code and response body.

pub mod laws;
pub mod person;
pub mod response;
pub mod store;
