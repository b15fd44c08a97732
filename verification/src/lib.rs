//! Shared Key authorization for a blob-storage REST endpoint.
//!
//! The crate builds the canonical string of a request, signs it with
//! HMAC-SHA256 under the account key, composes the `Authorization` header and
//! assembles the outbound request description. It also interprets the
//! response of each operation. Sending the request is left to the caller.

pub mod canonical;
pub mod config;
pub mod error;
pub mod listing;
pub mod outside;
pub mod query;
pub mod request;
pub mod response;
pub mod signer;
pub mod text;
