//! Option-contract lookups against a market-data service: reading the
//! request, naming the calls to make, and shaping what comes back.

pub mod codec;
pub mod dates;
pub mod decimal;
pub mod handler;
pub mod json;
pub mod listing;
pub mod params;
pub mod response;
pub mod seqs;
pub mod shaping;
pub mod snapshot;
pub mod upstream;
