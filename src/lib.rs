//! Client-side logic for Oblivious DNS-over-HTTPS: query construction,
//! configuration discovery and extraction, and the per-query session.
pub mod text;
pub mod record_type;
pub mod extract;
pub mod dns_utils;
pub mod config;
pub mod discovery;
pub mod session;
