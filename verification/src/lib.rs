//! The decisions of a small HTTP service over one resource, the user.
//!
//! The service keeps users in a relational table and offers five operations:
//! list, get, create, update and delete. Everything that touches the network
//! or the database is left to the caller. What is here is what the service
//! decides: which statement to send for a request, and which response to give
//! for what the store answered.

pub mod id;
pub mod user;
pub mod store;
pub mod table;
pub mod response;
pub mod service;
pub mod laws;
