//! What the library promises, in terms of what goes in and what comes out.
//!
//! Each law speaks of calls: given that a function returned what it did, this is
//! what holds of it.

pub mod answers;
pub mod data;
pub mod question;
pub mod server;
pub mod verdict;
