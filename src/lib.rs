//! A single shared "gathering" slot: an event that chat participants create,
//! join, leave, update and cancel, with a permission rule for the privileged
//! operations.
pub mod event;
pub mod instant;
pub mod laws;
pub mod permission;
pub mod store;
pub mod text;
