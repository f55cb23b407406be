//! The cached copy of the value and the scoped views onto it.
//!
//! Every view is handed out under a lock of the lock collaborator. Where the
//! collaborator reports that the backing file may have changed, the cached
//! copy is reloaded before the view is made. A write view is owed one commit,
//! attempted once and before its lock is given up.

use vstd::prelude::*;
use crate::codec::{load_spec, ser_load, FileRead};
use crate::error::Error;

verus! {

/// What the lock collaborator reports of one acquisition.
#[derive(Clone, Copy, Debug, PartialEq, Eq, Structural)]
pub enum State {
    /// Some holder took the lock exclusively since this session last
    /// released it: the backing file may have changed.
    Dirty,
    /// Nothing was changed since this session last released the lock.
    Clean,
}

impl State {
    /// Whether the cached copy has to be reloaded before it is shown.
    pub fn needs_reload(self) -> (reload: bool)
        ensures
            reload == (self == State::Dirty),
    {
        match self {
            State::Dirty => true,
            State::Clean => false,
        }
    }
}

/// What happened while the lock for a view was taken.
#[derive(Debug)]
pub enum Access<T> {
    /// The lock collaborator failed to take the lock.
    LockFailed,
    /// The lock is held, but the in-process guard of the cached copy was
    /// found poisoned.
    Poisoned,
    /// The lock is held and was reported clean.
    Clean,
    /// The lock is held and was reported dirty, and reading the backing file
    /// under it gave this.
    Dirty(FileRead<T>),
}

/// What is to become of the cached copy.
#[derive(Debug)]
pub enum Refresh<T> {
    /// It stays, and the operation fails.
    Fail(Error),
    /// It stays.
    Keep,
    /// It becomes the default value.
    Reset,
    /// It becomes this value.
    Replace(T),
}

/// What a read of the backing file means for the cached copy: a missing file
/// resets it, a decoded value replaces it, and a failure leaves it alone.
pub open spec fn reload_spec<T>(read: FileRead<T>) -> Refresh<T> {
    match load_spec(read) {
        None => Refresh::Reset,
        Some(Ok(value)) => Refresh::Replace(value),
        Some(Err(e)) => Refresh::Fail(e),
    }
}

/// What an acquisition means for the cached copy. Only a dirty lock makes
/// the backing file count, and a poisoned guard is never retried.
pub open spec fn refresh_spec<T>(access: Access<T>) -> Refresh<T> {
    match access {
        Access::LockFailed => Refresh::Fail(Error::Lock),
        Access::Poisoned => Refresh::Fail(Error::Poisoned),
        Access::Clean => Refresh::Keep,
        Access::Dirty(read) => reload_spec(read),
    }
}

/// Whether `after` is what `decision` makes of the cached copy `before`.
pub open spec fn refreshed<T: Default>(before: T, decision: Refresh<T>, after: T) -> bool {
    match decision {
        Refresh::Fail(_) => after == before,
        Refresh::Keep => after == before,
        Refresh::Reset => T::default.ensures((), after),
        Refresh::Replace(value) => after == value,
    }
}

/// The error that `decision` ends the operation with, if it does.
pub open spec fn failure<T>(decision: Refresh<T>) -> Option<Error> {
    match decision {
        Refresh::Fail(e) => Some(e),
        _ => None,
    }
}

/// The one commit that a write view is owed: whether it was attempted, and
/// how it ended.
#[derive(Debug)]
pub struct Commit {
    made: Option<Result<(), Error>>,
}

impl Commit {
    /// The outcome of the commit, once it was attempted.
    pub closed spec fn attempt(&self) -> Option<Result<(), Error>> {
        self.made
    }

    /// Whether the commit was attempted, with success or without.
    pub open spec fn is_attempted(&self) -> bool {
        self.attempt() is Some
    }

    /// Whether the commit was attempted and succeeded.
    pub open spec fn is_done(&self) -> bool {
        self.attempt() == Some(Ok::<(), Error>(()))
    }

    /// The flag of a view that was just made: nothing was attempted.
    pub fn new() -> (flag: Commit)
        ensures
            flag.attempt() is None,
    {
        Commit { made: None }
    }

    /// Whether the value is still to be stored before the view is given up.
    /// That is so until a commit was attempted: one that failed is not made
    /// again.
    pub fn needs_commit(&self) -> (needed: bool)
        ensures
            needed == !self.is_attempted(),
    {
        self.made.is_none()
    }

    /// The outcome of the commit; `None` while none was attempted.
    pub fn outcome(&self) -> (outcome: Option<Result<(), Error>>)
        ensures
            outcome == self.attempt(),
    {
        self.made
    }

    /// Records the outcome of the one attempt to store the value, and hands
    /// it on. The attempt counts whether it succeeded or failed.
    pub fn record(&mut self, stored: Result<(), Error>) -> (outcome: Result<(), Error>)
        requires
            !old(self).is_attempted(),
        ensures
            outcome == stored,
            final(self).attempt() == Some(stored),
    {
        self.made = Some(stored);
        stored
    }
}

/// The cached copy of the value.
#[derive(Debug)]
pub struct AtomBlob<T> {
    v: T,
}

/// A read view: the value as of the acquisition.
#[derive(Debug)]
pub struct BlobRef<'a, T> {
    v: &'a T,
}

/// A write view: the value, open to change, and the commit that it is owed.
#[derive(Debug)]
pub struct BlobMutRef<'a, T> {
    v: &'a mut T,
    committed: Commit,
}

impl<T> View for AtomBlob<T> {
    type V = T;

    closed spec fn view(&self) -> T {
        self.v
    }
}

impl<'a, T> View for BlobRef<'a, T> {
    type V = T;

    closed spec fn view(&self) -> T {
        *self.v
    }
}

impl<'a, T> View for BlobMutRef<'a, T> {
    type V = T;

    closed spec fn view(&self) -> T {
        *self.v
    }
}

impl<T: Default> AtomBlob<T> {
    /// Opens the cache on what reading the backing file gave: the value it
    /// held, or the default value where there is no file. A file that cannot
    /// be opened or decoded fails the call.
    pub fn new(read: FileRead<T>) -> (opened: Result<AtomBlob<T>, Error>)
        ensures
            match load_spec(read) {
                None => opened is Ok && T::default.ensures((), opened->Ok_0@),
                Some(Ok(value)) => opened is Ok && opened->Ok_0@ == value,
                Some(Err(e)) => opened is Err && opened->Err_0 == e,
            },
    {
        match ser_load(read) {
            None => Ok(AtomBlob { v: T::default() }),
            Some(Ok(value)) => Ok(AtomBlob { v: value }),
            Some(Err(e)) => Err(e),
        }
    }

    /// Reloads the cached copy from what reading the backing file gave. On a
    /// failure the cached copy stays as it was.
    pub fn reload(&mut self, read: FileRead<T>) -> (outcome: Result<(), Error>)
        ensures
            refreshed(old(self)@, reload_spec(read), final(self)@),
            match failure(reload_spec(read)) {
                Some(e) => outcome is Err && outcome->Err_0 == e,
                None => outcome is Ok,
            },
    {
        match ser_load(read) {
            None => {
                self.v = T::default();
                Ok(())
            },
            Some(Ok(value)) => {
                self.v = value;
                Ok(())
            },
            Some(Err(e)) => Err(e),
        }
    }

    /// Brings the cached copy up to date for one acquisition.
    pub fn refresh(&mut self, access: Access<T>) -> (outcome: Result<(), Error>)
        ensures
            refreshed(old(self)@, refresh_spec(access), final(self)@),
            match failure(refresh_spec(access)) {
                Some(e) => outcome is Err && outcome->Err_0 == e,
                None => outcome is Ok,
            },
    {
        match access {
            Access::LockFailed => Err(Error::Lock),
            Access::Poisoned => Err(Error::Poisoned),
            Access::Clean => Ok(()),
            Access::Dirty(read) => self.reload(read),
        }
    }

    /// Hands out a read view under a shared lock, after the cached copy was
    /// brought up to date.
    pub fn get(&mut self, access: Access<T>) -> (view: Result<BlobRef<'_, T>, Error>)
        ensures
            refreshed(old(self)@, refresh_spec(access), final(self)@),
            match failure(refresh_spec(access)) {
                Some(e) => view is Err && view->Err_0 == e,
                None => view is Ok && view->Ok_0@ == final(self)@,
            },
    {
        match self.refresh(access) {
            Err(e) => Err(e),
            Ok(()) => Ok(BlobRef { v: &self.v }),
        }
    }

    /// Hands out a write view under an exclusive lock, after the cached copy
    /// was brought up to date. No commit of the view was attempted yet, and
    /// what it holds at its end is what the cached copy holds from then on.
    pub fn get_mut(&mut self, access: Access<T>) -> (view: Result<BlobMutRef<'_, T>, Error>)
        ensures
            match failure(refresh_spec(access)) {
                Some(e) => view is Err && view->Err_0 == e && final(self)@ == old(self)@,
                None => view is Ok && refreshed(old(self)@, refresh_spec(access), view->Ok_0@)
                    && !view->Ok_0.committed().is_attempted()
                    && final(self)@ == *final(view->Ok_0.borrowed()),
            },
    {
        match self.refresh(access) {
            Err(e) => Err(e),
            Ok(()) => Ok(BlobMutRef { v: &mut self.v, committed: Commit::new() }),
        }
    }
}

impl<T> AtomBlob<T> {
    /// The cached copy.
    pub fn value(&self) -> (value: &T)
        ensures
            *value == self@,
    {
        &self.v
    }

    /// The cached copy, open to change: for a caller that keeps the cache
    /// behind a guard of its own and makes its write views from that guard.
    pub fn value_mut(&mut self) -> (value: &mut T)
        ensures
            *value == old(self)@,
            final(self)@ == *final(value),
    {
        &mut self.v
    }
}

impl<'a, T> BlobRef<'a, T> {
    /// The value that the view shows.
    pub fn deref(&self) -> (value: &T)
        ensures
            *value == self@,
    {
        self.v
    }
}

impl<'a, T> BlobMutRef<'a, T> {
    /// The borrow of the cached copy that the view holds.
    pub closed spec fn borrowed(self) -> &'a mut T {
        self.v
    }

    /// The commit that the view is owed.
    pub closed spec fn committed(&self) -> Commit {
        self.committed
    }

    /// The value that the view shows.
    pub fn deref(&self) -> (value: &T)
        ensures
            *value == self@,
    {
        &*self.v
    }

    /// The value, open to change.
    pub fn deref_mut(&mut self) -> (value: &mut T)
        ensures
            *value == old(self)@,
            final(self)@ == *final(value),
            *final(final(self).borrowed()) == *final(old(self).borrowed()),
            final(self).committed() == old(self).committed(),
    {
        &mut *self.v
    }

    /// Whether the value is still to be stored before the view is given up:
    /// so it is until a commit was attempted, with success or without.
    pub fn needs_commit(&self) -> (needed: bool)
        ensures
            needed == !self.committed().is_attempted(),
    {
        self.committed.needs_commit()
    }

    /// The outcome of the commit; `None` while none was attempted.
    pub fn outcome(&self) -> (outcome: Option<Result<(), Error>>)
        ensures
            outcome == self.committed().attempt(),
    {
        self.committed.outcome()
    }

    /// Records the outcome of the one attempt to store the current value,
    /// and hands it on. The attempt counts whether it succeeded or failed:
    /// after it the view asks for no further commit. The value is not
    /// touched.
    pub fn commit(&mut self, stored: Result<(), Error>) -> (outcome: Result<(), Error>)
        requires
            !old(self).committed().is_attempted(),
        ensures
            outcome == stored,
            final(self).committed().attempt() == Some(stored),
            final(self)@ == old(self)@,
            *final(final(self).borrowed()) == *final(old(self).borrowed()),
    {
        self.committed.record(stored)
    }

    /// Ends the view and with it the borrow: the cached copy now holds what
    /// the view held.
    pub fn release(self)
        ensures
            *final(self.borrowed()) == self@,
    {
    }
}

} // verus!
