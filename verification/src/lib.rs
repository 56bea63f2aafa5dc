//! A typed client for a remote chat-completion service.
//!
//! The client is configured in stages (`Unconfigured`, `NoAuth`, `Ready`), and only a
//! `Ready` client offers the operations of the request pipeline: the request's address
//! and headers, the classification of the reply, and the validation of tool calls.
pub mod error;
pub mod headers;
pub mod address;
pub mod transport;
pub mod types;
pub mod config;
pub mod client;
pub mod pipeline;
pub mod laws;
