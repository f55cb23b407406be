//! Protocol core of a crash-consistent, file-backed cache for a single value
//! that cooperating processes share through one backing file.
//!
//! The crate decides and the embedding program acts: file reads, staged
//! writes and lock acquisitions are carried out by the caller, which reports
//! each outcome to the functions here as a plain value.
//!
//! - `blob`: the cached copy, its reload on a dirty lock, and the read and
//!   write views.
//! - `codec`: what a read of the backing file means, and the stages of a
//!   store.
//! - `naming`: the extensions of the lock file and of the staging files.
//! - `error`: the failures.
//! - `laws`: what holds of the protocol as a whole.

pub mod blob;
pub mod codec;
pub mod error;
pub mod laws;
pub mod naming;

pub use blob::{Access, AtomBlob, BlobMutRef, BlobRef, Commit, Refresh, State};
pub use codec::{ser_load, ser_store, FileRead, Progress, StorePlan};
pub use error::{Error, Stage};
pub use naming::{lock_extension, temp_extension};
