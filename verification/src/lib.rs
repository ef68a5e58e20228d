//! CI/CD identity for an artifact registry.
//!
//! Pipelines present the token that their CI platform issued and receive a short-lived
//! registry token in return.  This crate holds the rules: which providers and identity
//! mappings an administrator configures, when a CI token is accepted, which mapping it
//! falls under and which service account it stands for.  Reading from the database and
//! the network is left to the caller, who hands the replies in as plain values.

pub mod admin;
pub mod administration;
pub mod bearer;
pub mod discovery;
pub mod error;
pub mod guarantees;
pub mod exchange;
pub mod identity;
pub mod json;
pub mod laws;
pub mod mapping;
pub mod model;
pub mod service;
pub mod storage;
pub mod text;
pub mod token;
pub mod uuid;
