//! A privacy-preserving proxy between a wallet and an Ethereum node provider.
//!
//! The library holds every decision of the proxy, and what it promises is proved. It performs no
//! I/O: a handler says what to ask the provider, and `routes::relay` makes the answer to the caller
//! from what came back.
pub mod config;
pub mod json;
pub mod laws;
pub mod nesting;
pub mod operations;
pub mod routes;
pub mod text;
pub mod upstream;
