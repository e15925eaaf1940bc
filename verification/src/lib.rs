//! A lightweight client core for OVH's REST APIs.
//!
//! The crate holds the credential of an application and signs the requests
//! that the application sends: it builds the canonical string of a call,
//! digests it, and lays out the headers that the API expects. Sending the
//! request is left to the caller, who drives `OVHClient::request` step by step
//! and performs the network action that each step asks for.
pub mod client;
mod clock;
pub mod config;
pub mod decimal;
pub mod digest;
pub mod document;
pub mod request;
pub mod signature;
mod utf8;

pub use client::OVHClient;
pub use config::host2host;
pub use config::Credential;
