//! Identity bridge between an OAuth2 social-login provider and OpenID Connect
//! relying parties.
//!
//! The crate holds the decisions of the bridge: which authorization requests
//! are redirected upstream and to which address, how an authorization code is
//! exchanged step by step for a signed identity token, how the single signing
//! key comes into being, and what the key discovery document contains. It does
//! no input or output of its own. A host program performs the requests that
//! the handlers ask for and hands the outcomes back as plain values.
//!
//! Every function is verified with Verus against a contract over the views
//! of its arguments: strings as sequences of characters, records as records
//! of such sequences. What other crates compute, the PEM encoding of a key,
//! a signature, a percent-encoded form, stands in the contracts under a
//! name of its own, and the few functions that make those calls are marked
//! as trusted where they stand.
//!
//! - [`routes::authorize`] validates an authorization request and builds the
//!   redirect to the upstream provider.
//! - [`routes::token`] is the exchange of a code for a token, as a step from
//!   a state and an event to the next state and an action.
//! - [`routes::jwks`] is the key discovery document.
//! - [`jwt::claims`] maps a profile to the claims of a token.
//! - [`jwt::signer`] signs claims, and holds the steps by which a caller
//!   comes by the signing key.
//! - [`jwt::keystore`] proves that callers which overlap end with one key.
//! - [`discord`] holds the upstream provider's records and the judgment of
//!   its answers, [`http`] requests and replies as plain values,
//!   [`config`] the configuration and [`error`] the failures.

pub mod config;
pub mod discord;
pub mod error;
pub mod http;
pub mod jwt;
pub mod routes;
pub mod text;
