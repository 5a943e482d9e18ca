//! The readiness of descriptors at the time of one evaluation pass.
//!
//! Readiness is asked anew before every pass and never kept between passes.
//! The table holds, for each descriptor that the registry was asked about,
//! what the lookup and the readiness query returned.

use vstd::prelude::*;

verus! {

/// Whether a descriptor can be read from and written to without blocking.
#[derive(Clone, Copy, Debug, PartialEq, Eq, Structural)]
pub struct PollState {
    /// A read would not block.
    pub readable: bool,
    /// A write would not block.
    pub writable: bool,
}

/// What the registry and the object behind a descriptor answered.
#[derive(Clone, Copy, Debug, PartialEq, Eq, Structural)]
pub enum Probe {
    /// The registry holds nothing under the descriptor.
    NotFound,
    /// The descriptor is open, but its readiness query failed.
    Failed,
    /// The descriptor is open and reported its readiness.
    State(PollState),
}

/// The answers for the descriptors from 0 up to the length of the table.
/// Every descriptor beyond it counts as not found.
#[derive(Debug, PartialEq, Eq)]
pub struct FdTable {
    /// The answer for descriptor `fd` at index `fd`.
    pub entries: Vec<Probe>,
}

impl FdTable {
    /// The table that holds no answer: every descriptor counts as not found.
    pub fn new() -> (table: FdTable)
        ensures
            forall|fd: int| table.spec_probe(fd) == Probe::NotFound,
    {
        FdTable { entries: Vec::new() }
    }

    /// Stores the answer for `fd` and leaves the answers for all other
    /// descriptors as they are. A negative `fd` is no descriptor, and the
    /// table stays as it is.
    pub fn record(&mut self, fd: i32, probe: Probe)
        ensures
            forall|other: int|
                final(self).spec_probe(other) == if other == fd && fd >= 0 {
                    probe
                } else {
                    old(self).spec_probe(other)
                },
    {
        if fd < 0 {
            return ;
        }
        let index = fd as usize;
        if index >= self.entries.len() {
            if let Probe::NotFound = probe {
                return ;
            }
            while self.entries.len() <= index
                invariant
                    old(self).entries@.len() <= self.entries@.len() <= index + 1,
                    index == fd,
                    forall|k: int|
                        0 <= k < old(self).entries@.len() ==> self.entries@[k] == old(
                            self,
                        ).entries@[k],
                    forall|k: int|
                        old(self).entries@.len() <= k < self.entries@.len() ==> self.entries@[k]
                            == Probe::NotFound,
                decreases index + 1 - self.entries@.len(),
            {
                self.entries.push(Probe::NotFound);
            }
        }
        self.entries.set(index, probe);
    }

    /// The answer for `fd`.
    pub open spec fn spec_probe(&self, fd: int) -> Probe {
        if 0 <= fd < self.entries@.len() {
            self.entries@[fd]
        } else {
            Probe::NotFound
        }
    }

    /// The answer for `fd`.
    pub fn probe(&self, fd: i32) -> (probe: Probe)
        ensures
            probe == self.spec_probe(fd as int),
    {
        if fd >= 0 && (fd as usize) < self.entries.len() {
            self.entries[fd as usize]
        } else {
            Probe::NotFound
        }
    }
}

} // verus!
