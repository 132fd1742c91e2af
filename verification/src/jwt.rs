//! The identity token: its claims, its signing key and its signature.

pub mod claims;
pub mod keystore;
pub mod signer;
