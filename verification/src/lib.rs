//! A client that submits Solana transactions over QUIC, with a client certificate.
//!
//! This crate holds what the client decides and computes; it opens no socket and reads no file.
//! A caller makes a [`TraderApiQuicClientConfig`], drives a connection through the steps of
//! [`connect`], and submits transactions in the steps of [`client`].  [`cli`] is the command line
//! of a program that submits one transaction.
//!
//! What the proofs take on trust of other crates and of std stands in [`outside`].  Nothing else calls
//! into another crate, but for the texts of errors, which come from their own `to_string`.

pub mod cli;
pub mod client;
pub mod config;
pub mod connect;
pub mod endpoint;
pub mod error;
pub mod identity;
pub mod outside;
pub mod pem;
pub mod settings;
pub mod text;

pub use client::TraderApiQuicClient;
pub use config::TraderApiQuicClientConfig;
pub use error::TraderApiQuicClientError;
