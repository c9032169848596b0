//! A small blogging back end, verified with Verus.
//!
//! The crate keeps users, posts and comments in an in-memory [`models::Store`]
//! and offers one function per operation: account creation, user lookup,
//! post creation and publication, commenting, and the joined read shapes
//! that the HTTP layer serves. Every operation carries a contract that
//! pins down its result and its effect on the store; `laws` states and
//! proves the cross-operation guarantees.

pub mod errors;
pub mod models;
pub mod laws;
