//! Persistence codec: how the outcome of reading the backing file is
//! classified, and the order in which a store touches the file system.
//!
//! A store never writes the backing file in place. It stages the encoding in
//! a temporary sibling file and replaces the backing file with it only after
//! the staging file has been created, written and flushed.

use vstd::prelude::*;
use crate::error::{Error, Stage};
use crate::naming::{temp_extension, temp_extension_spec};

verus! {

/// What reading the backing file gave.
#[derive(Debug)]
pub enum FileRead<T> {
    /// There is no backing file.
    Missing,
    /// The backing file exists but could not be opened.
    OpenFailed,
    /// The backing file was opened but its content could not be read as a value.
    Undecodable,
    /// The backing file held this value.
    Decoded(T),
}

/// The result of a load: `None` where there is no file, so that the caller
/// falls back to the default value; otherwise the value or the failure.
pub open spec fn load_spec<T>(read: FileRead<T>) -> Option<Result<T, Error>> {
    match read {
        FileRead::Missing => None,
        FileRead::OpenFailed => Some(Err(Error::Io(Stage::Open))),
        FileRead::Undecodable => Some(Err(Error::Decode)),
        FileRead::Decoded(value) => Some(Ok(value)),
    }
}

/// Classifies the outcome of reading the backing file.
pub fn ser_load<T>(read: FileRead<T>) -> (loaded: Option<Result<T, Error>>)
    ensures
        loaded == load_spec(read),
{
    match read {
        FileRead::Missing => None,
        FileRead::OpenFailed => Some(Err(Error::Io(Stage::Open))),
        FileRead::Undecodable => Some(Err(Error::Decode)),
        FileRead::Decoded(value) => Some(Ok(value)),
    }
}

/// How far a store has come.
#[derive(Clone, Copy, Debug, PartialEq, Eq, Structural)]
pub enum Progress {
    /// The staging file is to be created.
    Creating,
    /// The value is to be encoded into the staging file.
    Encoding,
    /// The staging file is to be flushed and closed.
    Flushing,
    /// The backing file is to be replaced by the staging file.
    Replacing,
    /// The backing file holds the new encoding.
    Stored,
    /// The store stopped at the given stage.
    Failed(Stage),
}

/// The stage that a store at `progress` asks the caller to carry out next,
/// if it asks for any.
pub open spec fn pending_spec(progress: Progress) -> Option<Stage> {
    match progress {
        Progress::Creating => Some(Stage::CreateTemp),
        Progress::Encoding => Some(Stage::Encode),
        Progress::Flushing => Some(Stage::Flush),
        Progress::Replacing => Some(Stage::Replace),
        Progress::Stored => None,
        Progress::Failed(_) => None,
    }
}

/// Progress after the pending stage has ended well (`ok`) or badly. A store
/// that asks for nothing stays where it is.
pub open spec fn advance(progress: Progress, ok: bool) -> Progress {
    match progress {
        Progress::Creating => if ok { Progress::Encoding } else { Progress::Failed(Stage::CreateTemp) },
        Progress::Encoding => if ok { Progress::Flushing } else { Progress::Failed(Stage::Encode) },
        Progress::Flushing => if ok { Progress::Replacing } else { Progress::Failed(Stage::Flush) },
        Progress::Replacing => if ok { Progress::Stored } else { Progress::Failed(Stage::Replace) },
        Progress::Stored => Progress::Stored,
        Progress::Failed(stage) => Progress::Failed(stage),
    }
}

/// What a store at `progress` reports: nothing while a stage is pending,
/// success once stored, else the stage that failed.
pub open spec fn result_spec(progress: Progress) -> Option<Result<(), Error>> {
    match progress {
        Progress::Stored => Some(Ok(())),
        Progress::Failed(stage) => Some(Err(Error::Io(stage))),
        _ => None,
    }
}

/// Progress of a store that started afresh and has seen `outcomes`, one per
/// stage carried out, oldest first.
pub open spec fn run(outcomes: Seq<bool>) -> Progress
    decreases outcomes.len(),
{
    if outcomes.len() == 0 {
        Progress::Creating
    } else {
        advance(run(outcomes.drop_last()), outcomes.last())
    }
}

/// One store of the value: the name of its staging file and its progress.
#[derive(Clone, Copy, Debug)]
pub struct StorePlan {
    suffix: u32,
    progress: Progress,
}

impl StorePlan {
    /// The number that names the staging file.
    pub closed spec fn suffix(&self) -> u32 {
        self.suffix
    }

    /// How far the store has come.
    pub closed spec fn progress(&self) -> Progress {
        self.progress
    }

    /// A store that has done nothing yet and stages under `suffix`.
    pub fn with_suffix(suffix: u32) -> (plan: StorePlan)
        ensures
            plan.suffix() == suffix,
            plan.progress() == Progress::Creating,
    {
        StorePlan { suffix, progress: Progress::Creating }
    }

    /// The extension that replaces the backing path's own to name the
    /// staging file of this store.
    pub fn temp_extension(&self) -> (ext: String)
        ensures
            ext@ == temp_extension_spec(self.suffix()),
    {
        temp_extension(self.suffix)
    }

    /// The stage to carry out next; `None` once the store has ended.
    pub fn pending(&self) -> (stage: Option<Stage>)
        ensures
            stage == pending_spec(self.progress()),
    {
        match self.progress {
            Progress::Creating => Some(Stage::CreateTemp),
            Progress::Encoding => Some(Stage::Encode),
            Progress::Flushing => Some(Stage::Flush),
            Progress::Replacing => Some(Stage::Replace),
            Progress::Stored => None,
            Progress::Failed(_) => None,
        }
    }

    /// Records how the pending stage ended. Success moves on to the next
    /// stage, failure ends the store at this one, and a store that has ended
    /// stays as it is.
    pub fn record(&mut self, ok: bool)
        ensures
            final(self).suffix() == old(self).suffix(),
            final(self).progress() == advance(old(self).progress(), ok),
    {
        self.progress = match self.progress {
            Progress::Creating => if ok { Progress::Encoding } else { Progress::Failed(Stage::CreateTemp) },
            Progress::Encoding => if ok { Progress::Flushing } else { Progress::Failed(Stage::Encode) },
            Progress::Flushing => if ok { Progress::Replacing } else { Progress::Failed(Stage::Flush) },
            Progress::Replacing => if ok { Progress::Stored } else { Progress::Failed(Stage::Replace) },
            Progress::Stored => Progress::Stored,
            Progress::Failed(stage) => Progress::Failed(stage),
        };
    }

    /// The outcome of the store; `None` while a stage is pending.
    pub fn result(&self) -> (outcome: Option<Result<(), Error>>)
        ensures
            outcome == result_spec(self.progress()),
    {
        match self.progress {
            Progress::Stored => Some(Ok(())),
            Progress::Failed(stage) => Some(Err(Error::Io(stage))),
            _ => None,
        }
    }
}

/// Draws the number that names a staging file.
///
/// Calls `rand::random::<u32>()`, which takes the next value of the
/// thread-local generator. Nothing is claimed of the number drawn: every
/// `u32` is allowed for, and two draws may or may not agree. The generator
/// gives up only where the operating system offers no entropy to seed it.
#[verifier::external_body]
fn random_suffix() -> (suffix: u32) {
    rand::random::<u32>()
}

/// Begins a store under a freshly drawn staging name, so that writers that
/// bypass the lock do not stage in one file.
///
/// The name is drawn from the thread-local random generator. Where the
/// operating system cannot seed or reseed that generator, the draw panics.
pub fn ser_store() -> (plan: StorePlan)
    ensures
        plan.progress() == Progress::Creating,
{
    StorePlan::with_suffix(random_suffix())
}

} // verus!
