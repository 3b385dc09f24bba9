//! The trader's settings, and the clock.

use vstd::prelude::*;
use vstd::string::*;

verus! {

/// The time now, in milliseconds since the start of 1970, from
/// `chrono::Utc::now` and `chrono::DateTime::timestamp_millis`. Nothing is
/// promised of the value: the clock gives what it gives.
#[verifier::external_body]
pub fn timestamp() -> i64 {
    chrono::Utc::now().timestamp_millis()
}

/// The trader's settings: how to sign requests, and which cards to scan.
#[derive(Debug)]
pub struct Config {
    pub client_app_id: String,
    pub authorization: String,
    pub cookies: String,
    pub user_agent: String,
    /// The factions to scan; none means all.
    pub faction: Vec<String>,
    /// The rarities to scan; none means all.
    pub rarity: Vec<String>,
    /// The foils to scan; none means all.
    pub foil: Vec<String>,
}

} // verus!
