//! Core of a tutoring marketplace: credentials, bearer tokens, role and
//! ownership rules, sparse record updates and tutor rating aggregates.
//!
//! Nothing here talks to the record store. Each operation is handed what the
//! caller has read from it and answers what the caller is to write; the
//! clock and fresh identifiers are the only things it fetches itself.

pub mod errors;
pub mod clock;
pub mod text;
pub mod validation;
pub mod models;
pub mod update;
pub mod password;
pub mod token;
pub mod policy;
pub mod rating;
pub mod services;
pub mod store;
pub mod config;
pub mod middleware;
