//! Answers "since which Rust version is feature X available" from a locally
//! cached copy of a remote feature database, and decides when to look for a
//! newer release of the tool itself.
//!
//! The cache and the update record are modelled as plain values: the library
//! decides what a read yields and what the file must become, and the caller
//! performs the file and network work it asks for.

pub mod artifact;
pub mod clock;
pub mod codec;
pub mod db;
pub mod models;
pub mod text;
pub mod update;

pub use artifact::{ArtifactSlot, Stored, MAX_AGE_SECS};
pub use clock::Timestamp;
pub use db::Db;
pub use models::{Channel, CompilerVersionData, Date, FeatureData};
pub use update::{
    self_need_update_check, self_update_check, self_update_check_inner, update_needed,
    NeedsCheck, RecordRead, UpdateCheck,
};

