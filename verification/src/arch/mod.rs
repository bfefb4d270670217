//! The seams to the platform: which shell and which secure-shell client to
//! run, and how secrets are kept.

pub mod shell;
pub mod ssh;
pub mod vault;
