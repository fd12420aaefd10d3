//! Client core for a JSON-over-HTTPS media-metadata service that authenticates
//! every resource request with an AWS3-style signature over short-lived,
//! server-issued credentials.
//!
//! The verified core covers identifier validation, canonical string
//! construction and signing, and the decision logic of the credential
//! bootstrap and resource-fetch exchanges. Network transport lives outside
//! this crate and hands plain values (status codes and body text) in.

use vstd::prelude::*;

pub mod client;
pub mod constants;
pub mod error;
pub mod signer;

pub use client::validate_imdb_id;
pub use error::ImdbApiError;
pub use signer::{AuthHeaders, Credentials, Signer};

verus! {

/// Report whether `imdb_id` is a well-formed IMDb identifier:
/// exactly two ASCII letters followed by exactly seven ASCII digits.
pub fn is_valid_imdb_id(imdb_id: &str) -> (r: bool)
    ensures
        r == client::valid_imdb_id(imdb_id@),
{
    client::validate_imdb_id(imdb_id)
}

} // verus!
