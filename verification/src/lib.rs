//! Marshalling layer for circuit-creation proposals.
//!
//! A proposal to create a multi-party circuit arrives either as a JSON
//! request body or as a binary wire message exchanged between peer nodes.
//! This crate converts both forms into one canonical in-memory model,
//! converts the model back out to the wire form, and classifies the errors
//! that malformed input or route-handling collaborators can produce.

pub mod config;
pub mod messages;
pub mod payload;
pub mod protos;
pub mod rest_api;
pub mod store;
