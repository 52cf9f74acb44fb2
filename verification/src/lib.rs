//! External authorization for Model Context Protocol backends.
//!
//! A gateway asks an authorization service whether a request may go through.
//! This crate decides what is asked, what the answer means, and what a refused
//! caller is told. Talking to the service is left to the caller.

pub mod answer;
pub mod body;
pub mod config;
pub mod counter;
pub mod ext_authz;
pub mod headers;
pub mod json;
pub mod laws;
pub mod metadata;
pub mod resource;
pub mod service;
pub mod snapshot;
pub mod status;
pub mod table;
pub mod text;
