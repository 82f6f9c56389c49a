//! Fail-fast startup configuration for a small service.
//!
//! The library turns looked-up environment values (`SERVICE_HOST`,
//! `SERVICE_PORT`) into a validated [`config::Config`], or reports exactly
//! which variable was missing or malformed. All decisions are made here, on
//! plain values; reading the process environment, loading an optional
//! override file and routing diagnostics stay with the embedding binary.

pub mod config;
pub mod port;
pub mod state;
