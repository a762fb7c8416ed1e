//! Verified core of a PAM module that authenticates a user through an
//! external signer holding a per-user private key.

pub mod attempt;
pub mod bridge;
pub mod config;
pub mod error;
pub mod naming;
pub mod signature;
pub mod signer;
