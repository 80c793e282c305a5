//! A SOCKS5 proxy core (RFC 1928, with RFC 1929 username/password
//! authentication), written as verified, I/O-free logic.
//!
//! The library decides; the caller moves bytes. A [`session::Session`] is fed
//! what the client sent and answers with the next step: read more, send a
//! reply, open the outbound connection, relay, or close. Every byte layout on
//! the wire is stated in [`codec`] and every decision is proved against it.
pub mod constants;
pub mod addr;
pub mod error;
pub mod codec;
pub mod negotiate;
pub mod session;
pub mod relay;
pub mod server;
pub mod config;
pub mod connection;

pub use error::Socks5Error;
pub use server::Server;
