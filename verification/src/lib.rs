//! Access-control core of a self-hosted feed-reading service: API key
//! issuance and lookup, short-lived signed session tokens, credential
//! header parsing for the HTTP middlewares, and the declarative schema
//! the persistent store is migrated to.

pub mod cli;
mod clock;
pub mod codec;
pub mod config;
mod error;
pub mod header;
pub mod keystore;
pub mod middleware;
pub mod schema;
pub mod token;

pub use error::Error;
