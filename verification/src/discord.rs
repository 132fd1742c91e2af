//! What the upstream provider sends, and how an answer of it is judged.

pub mod client;
pub mod models;
