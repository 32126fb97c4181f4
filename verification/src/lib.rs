//! Verified core of a small todo-list service.
//!
//! The service keeps todo lists and their items in a relational store and
//! exposes them over HTTP. This crate holds everything that can be stated
//! and proved: the domain records and the error taxonomy with its HTTP
//! translation (`models`), decoding of result rows into records (`rows`),
//! the semantics of the four storage operations over a model of the two
//! tables (`store`), and the mapping from operation outcomes to HTTP
//! responses (`handlers`). The unverified binary around it does the actual
//! network and database I/O and hands plain values in and out.

pub mod handlers;
pub mod models;
pub mod rows;
pub mod store;
