//! License entitlement lifecycle and tamper-evident audit log.

pub mod audit;
pub mod commands;
pub mod digest;
pub mod export;
pub mod fingerprint;
pub mod key;
pub mod license;
pub mod lifecycle;
pub mod security;
pub mod signature;
pub mod text;
pub mod time;
pub mod trail;
pub mod transport;
pub mod usage;
pub mod vault;
