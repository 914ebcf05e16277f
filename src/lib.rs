//! A small content store: callers put byte content under an identifier of
//! their choosing and later get it back by the same identifier.
//!
//! The library decides everything that does not touch the disk: which
//! identifiers are acceptable, where an entry and its in-progress copy live,
//! how much of an incoming stream is kept, and how the outcome of each storage
//! step is reported. A host program performs the storage steps it asks for.
mod error;
pub mod identifier;
pub mod paths;
pub mod store;
pub mod laws;
pub mod routes;

pub use error::StoreError;
pub use identifier::{is_valid_identifier, validate_identifier};
pub use routes::{index, rocket};
pub use store::{OpenOutcome, PasteStore, StepOutcome, StoredLocation, WriteSession, DEFAULT_SIZE_LIMIT};
