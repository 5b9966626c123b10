//! Webhook ingestion: authenticity checks, bounded body materialization,
//! event classification and installation-scoped capabilities.

pub mod header;
pub mod signature;
pub mod body;
pub mod verification;
pub mod event;
pub mod authentication;
pub mod configuration;
pub mod dispatcher;
pub mod token_cache;
