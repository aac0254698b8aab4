//! Access-control and data-access core of a Q&A service.
//!
//! The crate provides credential hashing and verification, issuance and
//! validation of encrypted bearer tokens, and a data-access port with an
//! in-memory backend, together with the ownership gate that every mutating
//! request must pass.

pub mod account;
pub mod answer;
pub mod claims;
pub mod config;
pub mod credentials;
pub mod digits;
pub mod errors;
pub mod google_ai_service;
pub mod memory_repository;
pub mod memory_store;
pub mod question;
pub mod repository;
pub mod routes;
pub mod server;
pub mod token;
