//! Search for an OpenPGP key whose fingerprint ends with a chosen suffix.
//!
//! A [`Candidate`] wraps one generated key and the creation time it was
//! generated with. Stepping its creation time back by one second
//! ("backflow") and generating again yields a new fingerprint without
//! starting over from a fresh anchor. A [`Worker`] drives that loop and
//! reports matches; the coordinator functions in [`search`] decide what a
//! whole search returns.
pub mod timestamp;
pub mod matching;
pub mod keygen;
pub mod candidate;
pub mod search;

pub use timestamp::Timestamp;
pub use candidate::{Candidate, KeyError};
pub use search::{Found, SearchError, SearchState, Worker};
pub use matching::normalize_suffix;
