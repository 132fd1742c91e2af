//! The three handlers of the bridge.

pub mod authorize;
pub mod jwks;
pub mod token;
