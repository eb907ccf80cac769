//! Classification of remote-storage file listings during a bulk
//! synchronisation pass.
//!
//! Every record of a listing is mapped to exactly one outcome: a pointer file
//! to generate, a companion metadata file to download, a skip, or a failure.
//! The decision is an ordered chain of rules over the record's path, name,
//! size and identifiers; the first rule that fires settles the outcome.

pub mod aggregate;
pub mod laws;
pub mod matcher;
pub mod processor;
pub mod rules;
pub mod text;
pub mod types;
