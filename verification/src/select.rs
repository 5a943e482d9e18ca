//! `select` and `pselect6`: readiness of descriptors given as bitmaps.
//!
//! A descriptor set is a bitmap over the descriptors from 0 to 1023, packed
//! into sixteen words of 64 bits: descriptor `fd` is bit `fd % 64` of word
//! `fd / 64`. A call names up to three sets, one for each class of interest:
//! descriptors to read from, descriptors to write to, and descriptors to
//! watch for failure.

use vstd::prelude::*;
use crate::errno::Errno;
use crate::ptr::UserPtr;
use crate::readiness::{FdTable, Probe};
use crate::time::Timeval;
use crate::wait::{select_timeout, spec_select_timeout, Timeout};

verus! {

/// Number of descriptors that a descriptor set covers.
pub const FD_SETSIZE: usize = 1024;

/// Number of descriptors in one word of a descriptor set.
pub const BITS_PER_WORD: usize = 64;

/// Number of words in a descriptor set.
pub const FD_SETSIZE_WORDS: usize = 16;

/// A descriptor set as it lies in the caller's memory.
#[derive(Clone, Copy, Debug, PartialEq, Eq)]
pub struct FdSet {
    /// The words of the bitmap, the lowest descriptors first.
    pub fds_bits: [u64; 16],
}

/// The three classes of interest of `select`.
#[derive(Clone, Copy, Debug, PartialEq, Eq, Structural)]
pub enum FdClass {
    /// Descriptors to read from.
    Read,
    /// Descriptors to write to.
    Write,
    /// Descriptors to watch for failure.
    Except,
}

/// The interest of one call of `select`: the three sets as the caller gave
/// them, cut to the number of descriptors that the call covers.
#[derive(Clone, Copy, Debug, PartialEq, Eq)]
pub struct FdSets {
    nfds: usize,
    bits: [u64; 48],
}

/// A call of `select` after its arguments have been checked.
#[derive(Clone, Copy, Debug, PartialEq, Eq)]
pub enum SelectCall {
    /// The call is over and returns this count.
    Done(usize),
    /// The call goes on with evaluation passes over `fd_sets` and blocks as
    /// `timeout` says.
    Evaluate { fd_sets: FdSets, timeout: Timeout },
}

/// Whether bit `j` of `word` is set.
pub open spec fn bit(word: u64, j: u64) -> bool {
    word & (1u64 << j) != 0
}

/// The number of words that hold the first `nfds` descriptors.
pub open spec fn words_for(nfds: int) -> int {
    (nfds + BITS_PER_WORD - 1) / (BITS_PER_WORD as int)
}

proof fn lemma_bit_of_zero(j: u64)
    by (bit_vector)
    requires
        j < 64,
    ensures
        0u64 & (1u64 << j) == 0,
{
}

proof fn lemma_bit_of_union(r: u64, w: u64, e: u64, j: u64)
    by (bit_vector)
    requires
        j < 64,
    ensures
        ((r | w | e) & (1u64 << j) == 0) == (r & (1u64 << j) == 0 && w & (1u64 << j) == 0 && e & (
        1u64 << j) == 0),
{
}

proof fn lemma_bit_after_set(word: u64, j: u64, k: u64)
    by (bit_vector)
    requires
        j < 64,
        k < 64,
    ensures
        ((word | (1u64 << j)) & (1u64 << k) != 0) == ((word & (1u64 << k) != 0) || j == k),
{
}

impl FdClass {
    /// The place of the class among the three: 0, 1 or 2.
    pub open spec fn index(self) -> int {
        match self {
            FdClass::Read => 0,
            FdClass::Write => 1,
            FdClass::Except => 2,
        }
    }
}

impl FdSet {
    /// Whether the set holds `fd`.
    pub open spec fn contains(&self, fd: int) -> bool {
        0 <= fd < FD_SETSIZE && bit(self.fds_bits@[fd / 64], (fd % 64) as u64)
    }

    /// Whether the set holds no descriptor.
    pub open spec fn is_empty(&self) -> bool {
        forall|fd: int| !self.contains(fd)
    }

    /// The empty set.
    pub fn empty() -> (set: FdSet)
        ensures
            set.is_empty(),
            forall|w: int| 0 <= w < FD_SETSIZE_WORDS ==> set.fds_bits@[w] == 0,
    {
        // Every word is written once, so that its value is known to the proof.
        let mut fds_bits = [0u64; 16];
        let mut w: usize = 0;
        while w < 16
            invariant
                w <= 16,
                forall|k: int| 0 <= k < w ==> fds_bits@[k] == 0,
            decreases 16 - w,
        {
            fds_bits[w] = 0;
            w += 1;
        }
        let set = FdSet { fds_bits };
        assert forall|fd: int| !set.contains(fd) by {
            if 0 <= fd < FD_SETSIZE {
                lemma_bit_of_zero((fd % 64) as u64);
            }
        }
        set
    }

    /// Whether the set holds `fd`.
    pub fn is_set(&self, fd: usize) -> (set: bool)
        ensures
            set == self.contains(fd as int),
    {
        if fd < FD_SETSIZE {
            let mask: u64 = 1u64 << ((fd % 64) as u64);
            self.fds_bits[fd / 64] & mask != 0
        } else {
            false
        }
    }
}

impl FdSets {
    /// Whether the value is well formed: it covers no more descriptors than a
    /// set can hold. Every value that `from` makes is well formed.
    #[verifier::type_invariant]
    pub closed spec fn wf(&self) -> bool {
        self.nfds <= FD_SETSIZE
    }

    /// The number of descriptors that the call covers.
    pub closed spec fn spec_nfds(&self) -> usize {
        self.nfds
    }

    /// Whether the caller asked about `fd` in `class`. Nothing is asked about
    /// a descriptor beyond those that the call covers.
    pub closed spec fn requested(&self, class: FdClass, fd: int) -> bool {
        0 <= fd < self.nfds && bit(
            self.bits@[class.index() * 16 + fd / 64],
            (fd % 64) as u64,
        )
    }

    /// Whether this is the interest of a call that covers `nfds` descriptors
    /// and was given the three sets: in each class the caller asks about the
    /// descriptors below `nfds` that the set of the class holds.
    pub open spec fn is_interest_of(
        &self,
        nfds: int,
        read_fds: UserPtr<FdSet>,
        write_fds: UserPtr<FdSet>,
        except_fds: UserPtr<FdSet>,
    ) -> bool {
        &&& self.wf()
        &&& self.spec_nfds() == nfds
        &&& forall|fd: int| #[trigger]
            self.requested(FdClass::Read, fd) == (fd < nfds && holds(read_fds, fd))
        &&& forall|fd: int| #[trigger]
            self.requested(FdClass::Write, fd) == (fd < nfds && holds(write_fds, fd))
        &&& forall|fd: int| #[trigger]
            self.requested(FdClass::Except, fd) == (fd < nfds && holds(except_fds, fd))
    }

    /// Whether the caller asked about `fd` in any class.
    pub open spec fn requested_at_all(&self, fd: int) -> bool {
        self.requested(FdClass::Read, fd) || self.requested(FdClass::Write, fd)
            || self.requested(FdClass::Except, fd)
    }

    /// Whether a pass reports `fd` in `class`: the caller asked about it
    /// there, and the descriptor is readable for the read class, writable for
    /// the write class, and not open or not answering for the except class.
    pub open spec fn found_ready(&self, class: FdClass, fd: int, table: FdTable) -> bool {
        self.requested(class, fd) && match table.spec_probe(fd) {
            Probe::State(state) => (class == FdClass::Read && state.readable) || (class
                == FdClass::Write && state.writable),
            _ => class == FdClass::Except,
        }
    }

    /// The number of classes in which a pass reports `fd`.
    pub open spec fn hits(&self, fd: int, table: FdTable) -> nat {
        (if self.found_ready(FdClass::Read, fd, table) {
            1nat
        } else {
            0nat
        }) + (if self.found_ready(FdClass::Write, fd, table) {
            1nat
        } else {
            0nat
        }) + (if self.found_ready(FdClass::Except, fd, table) {
            1nat
        } else {
            0nat
        })
    }

    /// The count of a pass over the descriptors below `upto`, taken one
    /// descriptor at a time: a descriptor counts once for each class in which
    /// it is reported.
    pub open spec fn ready_upto(&self, table: FdTable, upto: int) -> nat
        decreases upto,
    {
        if upto <= 0 {
            0
        } else {
            self.ready_upto(table, upto - 1) + self.hits(upto - 1, table)
        }
    }

    /// The count of a pass.
    pub open spec fn ready_total(&self, table: FdTable) -> nat {
        self.ready_upto(table, self.spec_nfds() as int)
    }

    /// The number of descriptors that the call covers.
    #[verifier::when_used_as_spec(spec_nfds)]
    pub fn nfds(&self) -> (nfds: usize)
        ensures
            nfds == self.spec_nfds(),
            nfds <= FD_SETSIZE,
    {
        proof {
            use_type_invariant(self);
        }
        self.nfds
    }

    /// Takes the interest of a call from the caller's three sets.
    ///
    /// The call covers `nfds` descriptors, at most as many as a set holds. A
    /// set that is not given, or not accessible, counts as empty. What the
    /// sets hold beyond the descriptors that the call covers is ignored.
    pub fn from(
        nfds: usize,
        read_fds: &UserPtr<FdSet>,
        write_fds: &UserPtr<FdSet>,
        except_fds: &UserPtr<FdSet>,
    ) -> (sets: FdSets)
        ensures
            sets.is_interest_of(
                min(nfds as int, FD_SETSIZE as int),
                *read_fds,
                *write_fds,
                *except_fds,
            ),
    {
        let nfds = if nfds <= FD_SETSIZE {
            nfds
        } else {
            FD_SETSIZE
        };
        let nfds_words = (nfds + (BITS_PER_WORD - 1)) / BITS_PER_WORD;
        // Every word is written once, so that its value is known to the proof.
        let mut bits = [0u64; 48];
        let mut k: usize = 0;
        while k < 48
            invariant
                k <= 48,
                forall|w: int| 0 <= w < k ==> bits@[w] == 0,
            decreases 48 - k,
        {
            bits[k] = 0;
            k += 1;
        }
        copy_from_fd_set(&mut bits, 0, read_fds, nfds_words);
        copy_from_fd_set(&mut bits, FD_SETSIZE_WORDS, write_fds, nfds_words);
        copy_from_fd_set(&mut bits, 2 * FD_SETSIZE_WORDS, except_fds, nfds_words);
        let sets = FdSets { nfds, bits };
        proof {
            assert forall|fd: int| #[trigger]
                sets.requested(FdClass::Read, fd) == (fd < nfds && holds(*read_fds, fd)) by {
                lemma_requested_from_source(sets, FdClass::Read, *read_fds, fd);
            }
            assert forall|fd: int| #[trigger]
                sets.requested(FdClass::Write, fd) == (fd < nfds && holds(*write_fds, fd)) by {
                lemma_requested_from_source(sets, FdClass::Write, *write_fds, fd);
            }
            assert forall|fd: int| #[trigger]
                sets.requested(FdClass::Except, fd) == (fd < nfds && holds(*except_fds, fd)) by {
                lemma_requested_from_source(sets, FdClass::Except, *except_fds, fd);
            }
        }
        sets
    }
}

/// Copies the first `nfds_words` words of the caller's set, if it is
/// accessible, to the sixteen words of `bits` that start at `base`.
fn copy_from_fd_set(bits: &mut [u64; 48], base: usize, fds: &UserPtr<FdSet>, nfds_words: usize)
    requires
        base + FD_SETSIZE_WORDS <= 48,
        nfds_words <= FD_SETSIZE_WORDS,
        forall|k: int| base <= k < base + FD_SETSIZE_WORDS ==> old(bits)@[k] == 0,
    ensures
        forall|k: int|
            base <= k < base + FD_SETSIZE_WORDS ==> final(bits)@[k] == source_word(
                *fds,
                k - base,
                nfds_words as int,
            ),
        forall|k: int|
            0 <= k < 48 && !(base <= k < base + FD_SETSIZE_WORDS) ==> final(bits)@[k] == old(
                bits,
            )@[k],
{
    match fds {
        UserPtr::Mapped(set) => {
            let mut w: usize = 0;
            while w < nfds_words
                invariant
                    w <= nfds_words <= FD_SETSIZE_WORDS,
                    base + FD_SETSIZE_WORDS <= 48,
                    forall|k: int| base <= k < base + w ==> bits@[k] == set.fds_bits@[k - base],
                    forall|k: int| base + w <= k < base + FD_SETSIZE_WORDS ==> bits@[k] == 0,
                    forall|k: int|
                        0 <= k < 48 && !(base <= k < base + FD_SETSIZE_WORDS) ==> bits@[k] == old(
                            bits,
                        )@[k],
                decreases nfds_words - w,
            {
                bits[base + w] = set.fds_bits[w];
                w += 1;
            }
        },
        _ => {},
    }
}

/// Whether the set behind `fds` holds `fd`; a pointer that leads to no
/// accessible set holds nothing.
pub open spec fn holds(fds: UserPtr<FdSet>, fd: int) -> bool {
    fds matches UserPtr::Mapped(set) && set.contains(fd)
}

/// Word `w` of the caller's set as the kernel takes it: the word itself
/// within the first `nfds_words` words of an accessible set, and zero
/// otherwise.
spec fn source_word(fds: UserPtr<FdSet>, w: int, nfds_words: int) -> u64 {
    match fds {
        UserPtr::Mapped(set) => if w < nfds_words {
            set.fds_bits@[w]
        } else {
            0u64
        },
        _ => 0u64,
    }
}

proof fn lemma_requested_from_source(sets: FdSets, class: FdClass, source: UserPtr<FdSet>, fd: int)
    requires
        sets.nfds <= FD_SETSIZE,
        forall|w: int|
            0 <= w < 16 ==> sets.bits@[class.index() * 16 + w] == source_word(
                source,
                w,
                words_for(sets.nfds as int),
            ),
    ensures
        sets.requested(class, fd) == (fd < sets.spec_nfds() && holds(source, fd)),
{
    if 0 <= fd < sets.nfds {
        let w = fd / 64;
        assert(sets.bits@[class.index() * 16 + w] == source_word(
            source,
            w,
            words_for(sets.nfds as int),
        ));
        if !(source is Mapped) {
            lemma_bit_of_zero((fd % 64) as u64);
        }
    }
}

/// Whether `after` is what clearing the words of the first `nfds`
/// descriptors leaves of `before`: an accessible set keeps the descriptors
/// beyond those words and loses all others; any other pointer is as it was.
pub open spec fn is_cleared(before: UserPtr<FdSet>, after: UserPtr<FdSet>, nfds: int) -> bool {
    match before {
        UserPtr::Mapped(set) => {
            &&& after is Mapped
            &&& forall|w: int|
                0 <= w < FD_SETSIZE_WORDS ==> after->Mapped_0.fds_bits@[w] == if w < words_for(
                    nfds,
                ) {
                    0u64
                } else {
                    set.fds_bits@[w]
                }
        },
        _ => after == before,
    }
}

/// Whether `after` is `before` with `fd` added: an accessible set holds `fd`
/// and what it held; any other pointer is as it was.
pub open spec fn is_inserted(before: UserPtr<FdSet>, after: UserPtr<FdSet>, fd: int) -> bool {
    match before {
        UserPtr::Mapped(set) => {
            &&& after is Mapped
            &&& forall|k: int| after->Mapped_0.contains(k) == (set.contains(k) || k == fd)
            &&& forall|w: int|
                0 <= w < FD_SETSIZE_WORDS && w != fd / 64 ==> after->Mapped_0.fds_bits@[w]
                    == set.fds_bits@[w]
        },
        _ => after == before,
    }
}

/// Whether `after` is what a pass leaves of the result set `before` of
/// `class`: an accessible set holds what it held and every descriptor that
/// the pass reports in the class; any other pointer is as it was.
pub open spec fn is_result(
    before: UserPtr<FdSet>,
    after: UserPtr<FdSet>,
    sets: FdSets,
    class: FdClass,
    table: FdTable,
) -> bool {
    match before {
        UserPtr::Mapped(set) => {
            &&& after is Mapped
            &&& forall|fd: int|
                after->Mapped_0.contains(fd) == (set.contains(fd) || sets.found_ready(
                    class,
                    fd,
                    table,
                ))
        },
        _ => after == before,
    }
}

/// Clears the words that hold the first `nfds` descriptors of the caller's
/// set. A pointer that leads to no accessible set is left alone.
pub fn zero_fd_set(fds: &mut UserPtr<FdSet>, nfds: usize)
    requires
        nfds <= FD_SETSIZE,
    ensures
        is_cleared(*old(fds), *final(fds), nfds as int),
{
    match fds {
        UserPtr::Mapped(set) => {
            let nfds_words = (nfds + (BITS_PER_WORD - 1)) / BITS_PER_WORD;
            let ghost before = set.fds_bits@;
            let mut i: usize = 0;
            while i < nfds_words
                invariant
                    i <= nfds_words <= 16,
                    forall|w: int| 0 <= w < i ==> set.fds_bits@[w] == 0,
                    forall|w: int| i <= w < 16 ==> set.fds_bits@[w] == before[w],
                decreases nfds_words - i,
            {
                set.fds_bits[i] = 0;
                i += 1;
            }
        },
        _ => {},
    }
}

/// Adds `fd` to the caller's set. A pointer that leads to no accessible set
/// is left alone.
pub fn set_fd_set(fds: &mut UserPtr<FdSet>, fd: usize)
    requires
        fd < FD_SETSIZE,
    ensures
        is_inserted(*old(fds), *final(fds), fd as int),
{
    match fds {
        UserPtr::Mapped(set) => {
            let ghost before = *set;
            let word: u64 = set.fds_bits[fd / BITS_PER_WORD];
            set.fds_bits[fd / BITS_PER_WORD] = word | (1u64 << ((fd % BITS_PER_WORD) as u64));
            proof {
                assert forall|k: int| set.contains(k) == (before.contains(k) || k == fd) by {
                    if 0 <= k < FD_SETSIZE {
                        if k / 64 == fd / 64 {
                            lemma_bit_after_set(word, (fd % 64) as u64, (k % 64) as u64);
                        }
                    }
                }
            }
        },
        _ => {},
    }
}

impl FdSets {
    /// Whether the caller asked about `fd` in `class`.
    pub fn is_requested(&self, class: FdClass, fd: usize) -> (requested: bool)
        ensures
            requested == self.requested(class, fd as int),
    {
        proof {
            use_type_invariant(self);
        }
        if fd < self.nfds {
            let base: usize = match class {
                FdClass::Read => 0,
                FdClass::Write => 16,
                FdClass::Except => 32,
            };
            self.bits[base + fd / BITS_PER_WORD] & (1u64 << ((fd % BITS_PER_WORD) as u64)) != 0
        } else {
            false
        }
    }

    /// Whether the caller asked about `fd` in any class. Before a pass, the
    /// registry is asked about the descriptors for which this holds and about
    /// no others.
    pub fn is_requested_at_all(&self, fd: usize) -> (requested: bool)
        ensures
            requested == self.requested_at_all(fd as int),
    {
        self.is_requested(FdClass::Read, fd) || self.is_requested(FdClass::Write, fd)
            || self.is_requested(FdClass::Except, fd)
    }

    /// A stretch of descriptors that the caller did not ask about adds nothing
    /// to the count.
    proof fn lemma_quiet_stretch(&self, table: FdTable, from: int, to: int)
        requires
            0 <= from <= to,
            forall|fd: int| from <= fd < to ==> !#[trigger] self.requested_at_all(fd),
        ensures
            self.ready_upto(table, to) == self.ready_upto(table, from),
        decreases to - from,
    {
        if from < to {
            self.lemma_quiet_stretch(table, from, to - 1);
            assert(!self.requested_at_all(to - 1));
        }
    }

    /// A pass counts at most three for each descriptor.
    pub proof fn lemma_ready_upto_bound(&self, table: FdTable, upto: int)
        requires
            0 <= upto,
        ensures
            self.ready_upto(table, upto) <= 3 * upto,
        decreases upto,
    {
        if upto > 0 {
            self.lemma_ready_upto_bound(table, upto - 1);
        }
    }

    /// Runs one evaluation pass and returns its count.
    ///
    /// The descriptors that the call covers are visited in ascending order,
    /// one word of the bitmaps at a time; a word in which the caller asked
    /// about nothing is passed over without a lookup, and so is every
    /// descriptor that the caller did not ask about. A descriptor that is
    /// asked about is looked up in `table`. Where it answers, it is added to
    /// the read results if it is readable and was asked about for reading,
    /// and to the write results likewise. Where it is not open, or does not
    /// answer, it is added to the except results if it was asked about there.
    /// Each addition counts, so that a descriptor may count more than once.
    pub fn poll_all(
        &self,
        table: &FdTable,
        res_read_fds: &mut UserPtr<FdSet>,
        res_write_fds: &mut UserPtr<FdSet>,
        res_except_fds: &mut UserPtr<FdSet>,
    ) -> (res_num: usize)
        ensures
            res_num == self.ready_total(*table),
            is_result(*old(res_read_fds), *final(res_read_fds), *self, FdClass::Read, *table),
            is_result(*old(res_write_fds), *final(res_write_fds), *self, FdClass::Write, *table),
            is_result(*old(res_except_fds), *final(res_except_fds), *self, FdClass::Except, *table),
    {
        proof {
            use_type_invariant(self);
        }
        let ghost before = (*res_read_fds, *res_write_fds, *res_except_fds);
        let nfds = self.nfds;
        let mut i: usize = 0;
        let mut res_num: usize = 0;
        while i < nfds
            invariant
                nfds == self.nfds,
                nfds <= FD_SETSIZE,
                i % 64 == 0,
                i <= FD_SETSIZE,
                res_num == self.ready_upto(*table, min(i as int, nfds as int)),
                res_num <= 3 * i,
                self.is_partial(
                    before,
                    (*res_read_fds, *res_write_fds, *res_except_fds),
                    *table,
                    i as int,
                ),
            decreases FD_SETSIZE + 64 - i,
        {
            let word = i / BITS_PER_WORD;
            let read_bits: u64 = self.bits[word];
            let write_bits: u64 = self.bits[16 + word];
            let except_bits: u64 = self.bits[32 + word];
            let all_bits: u64 = read_bits | write_bits | except_bits;
            let ghost to = min(i + 64, nfds as int);
            if all_bits == 0 {
                proof {
                    let now = (*res_read_fds, *res_write_fds, *res_except_fds);
                    assert forall|fd: int| i <= fd < to implies !#[trigger] self.requested_at_all(
                        fd,
                    ) by {
                        lemma_bit_of_union(read_bits, write_bits, except_bits, (fd % 64) as u64);
                        lemma_bit_of_zero((fd % 64) as u64);
                    }
                    self.lemma_quiet_stretch(*table, i as int, to);
                    self.lemma_partial_widen(before, now, *table, i as int, to);
                }
            } else {
                let mut j: usize = 0;
                while j < BITS_PER_WORD && i + j < nfds
                    invariant
                        nfds == self.nfds,
                        nfds <= FD_SETSIZE,
                        i % 64 == 0,
                        i < nfds,
                        j <= 64,
                        i + j <= nfds,
                        word == i / 64,
                        read_bits == self.bits@[word as int],
                        write_bits == self.bits@[16 + word],
                        except_bits == self.bits@[32 + word],
                        all_bits == read_bits | write_bits | except_bits,
                        res_num == self.ready_upto(*table, i + j),
                        res_num <= 3 * (i + j),
                        self.is_partial(
                            before,
                            (*res_read_fds, *res_write_fds, *res_except_fds),
                            *table,
                            i + j,
                        ),
                    decreases 64 - j,
                {
                    let mask: u64 = 1u64 << (j as u64);
                    let fd = i + j;
                    let ghost earlier = (*res_read_fds, *res_write_fds, *res_except_fds);
                    proof {
                        lemma_bit_of_union(read_bits, write_bits, except_bits, j as u64);
                    }
                    if all_bits & mask != 0 {
                        match table.probe(fd as i32) {
                            Probe::State(state) => {
                                if state.readable && read_bits & mask != 0 {
                                    set_fd_set(res_read_fds, fd);
                                    res_num += 1;
                                }
                                if state.writable && write_bits & mask != 0 {
                                    set_fd_set(res_write_fds, fd);
                                    res_num += 1;
                                }
                            },
                            _ => {
                                if except_bits & mask != 0 {
                                    set_fd_set(res_except_fds, fd);
                                    res_num += 1;
                                }
                            },
                        }
                    }
                    proof {
                        let now = (*res_read_fds, *res_write_fds, *res_except_fds);
                        self.lemma_partial_step(before, earlier, now, *table, fd as int);
                    }
                    j += 1;
                }
            }
            proof {
                let now = (*res_read_fds, *res_write_fds, *res_except_fds);
                assert forall|fd: int| to <= fd < i + 64 implies !#[trigger] self.requested_at_all(
                    fd,
                ) by {}
                self.lemma_partial_widen(before, now, *table, to, i + 64);
                self.lemma_ready_upto_bound(*table, to);
            }
            i += BITS_PER_WORD;
        }
        proof {
            let now = (*res_read_fds, *res_write_fds, *res_except_fds);
            self.lemma_partial_done(before, now, *table, i as int);
        }
        res_num
    }

    /// Whether `now` is what a pass that has come as far as descriptor `upto`
    /// leaves of the result set `before` of `class`.
    spec fn is_partial_in(
        &self,
        class: FdClass,
        before: UserPtr<FdSet>,
        now: UserPtr<FdSet>,
        table: FdTable,
        upto: int,
    ) -> bool {
        match before {
            UserPtr::Mapped(set) => {
                &&& now is Mapped
                &&& forall|fd: int|
                    now->Mapped_0.contains(fd) == (set.contains(fd) || (fd < upto
                        && self.found_ready(class, fd, table)))
            },
            _ => now == before,
        }
    }

    /// Whether `now` is what a pass that has come as far as descriptor `upto`
    /// leaves of the three result sets `before`.
    spec fn is_partial(&self, before: Sets, now: Sets, table: FdTable, upto: int) -> bool {
        &&& self.is_partial_in(FdClass::Read, before.0, now.0, table, upto)
        &&& self.is_partial_in(FdClass::Write, before.1, now.1, table, upto)
        &&& self.is_partial_in(FdClass::Except, before.2, now.2, table, upto)
    }

    proof fn lemma_partial_step_in(
        &self,
        class: FdClass,
        before: UserPtr<FdSet>,
        earlier: UserPtr<FdSet>,
        now: UserPtr<FdSet>,
        table: FdTable,
        fd: int,
    )
        requires
            self.is_partial_in(class, before, earlier, table, fd),
            if self.found_ready(class, fd, table) {
                is_inserted(earlier, now, fd)
            } else {
                now == earlier
            },
        ensures
            self.is_partial_in(class, before, now, table, fd + 1),
    {
        if let UserPtr::Mapped(set) = before {
            let held = earlier->Mapped_0;
            let holds_now = now->Mapped_0;
            assert forall|k: int|
                holds_now.contains(k) == (set.contains(k) || (k < fd + 1 && self.found_ready(
                    class,
                    k,
                    table,
                ))) by {
                assert(held.contains(k) == (set.contains(k) || (k < fd && self.found_ready(
                    class,
                    k,
                    table,
                ))));
            }
        }
    }

    /// One descriptor further: each result set has taken in `fd` where the
    /// pass reports it, and is as it was where not.
    proof fn lemma_partial_step(
        &self,
        before: Sets,
        earlier: Sets,
        now: Sets,
        table: FdTable,
        fd: int,
    )
        requires
            self.is_partial(before, earlier, table, fd),
            if self.found_ready(FdClass::Read, fd, table) {
                is_inserted(earlier.0, now.0, fd)
            } else {
                now.0 == earlier.0
            },
            if self.found_ready(FdClass::Write, fd, table) {
                is_inserted(earlier.1, now.1, fd)
            } else {
                now.1 == earlier.1
            },
            if self.found_ready(FdClass::Except, fd, table) {
                is_inserted(earlier.2, now.2, fd)
            } else {
                now.2 == earlier.2
            },
        ensures
            self.is_partial(before, now, table, fd + 1),
    {
        self.lemma_partial_step_in(FdClass::Read, before.0, earlier.0, now.0, table, fd);
        self.lemma_partial_step_in(FdClass::Write, before.1, earlier.1, now.1, table, fd);
        self.lemma_partial_step_in(FdClass::Except, before.2, earlier.2, now.2, table, fd);
    }

    proof fn lemma_partial_widen_in(
        &self,
        class: FdClass,
        before: UserPtr<FdSet>,
        now: UserPtr<FdSet>,
        table: FdTable,
        upto: int,
        beyond: int,
    )
        requires
            self.is_partial_in(class, before, now, table, upto),
            upto <= beyond,
            forall|fd: int| upto <= fd < beyond ==> !#[trigger] self.requested_at_all(fd),
        ensures
            self.is_partial_in(class, before, now, table, beyond),
    {
        if let UserPtr::Mapped(set) = before {
            let holds_now = now->Mapped_0;
            assert forall|k: int|
                holds_now.contains(k) == (set.contains(k) || (k < beyond && self.found_ready(
                    class,
                    k,
                    table,
                ))) by {
                assert(holds_now.contains(k) == (set.contains(k) || (k < upto && self.found_ready(
                    class,
                    k,
                    table,
                ))));
                if upto <= k < beyond {
                    assert(!self.requested_at_all(k));
                }
            }
        }
    }

    /// Across a stretch that the caller did not ask about, the result sets
    /// stay what they are.
    proof fn lemma_partial_widen(
        &self,
        before: Sets,
        now: Sets,
        table: FdTable,
        upto: int,
        beyond: int,
    )
        requires
            self.is_partial(before, now, table, upto),
            upto <= beyond,
            forall|fd: int| upto <= fd < beyond ==> !#[trigger] self.requested_at_all(fd),
        ensures
            self.is_partial(before, now, table, beyond),
    {
        self.lemma_partial_widen_in(FdClass::Read, before.0, now.0, table, upto, beyond);
        self.lemma_partial_widen_in(FdClass::Write, before.1, now.1, table, upto, beyond);
        self.lemma_partial_widen_in(FdClass::Except, before.2, now.2, table, upto, beyond);
    }

    proof fn lemma_partial_done_in(
        &self,
        class: FdClass,
        before: UserPtr<FdSet>,
        now: UserPtr<FdSet>,
        table: FdTable,
        upto: int,
    )
        requires
            self.is_partial_in(class, before, now, table, upto),
            upto >= self.nfds,
        ensures
            is_result(before, now, *self, class, table),
    {
        if let UserPtr::Mapped(set) = before {
            let holds_now = now->Mapped_0;
            assert forall|k: int|
                holds_now.contains(k) == (set.contains(k) || self.found_ready(class, k, table)) by {
                assert(holds_now.contains(k) == (set.contains(k) || (k < upto && self.found_ready(
                    class,
                    k,
                    table,
                ))));
            }
        }
    }

    /// Past the last descriptor that the call covers, the result sets are
    /// those of the whole pass.
    proof fn lemma_partial_done(&self, before: Sets, now: Sets, table: FdTable, upto: int)
        requires
            self.is_partial(before, now, table, upto),
            upto >= self.nfds,
        ensures
            is_result(before.0, now.0, *self, FdClass::Read, table),
            is_result(before.1, now.1, *self, FdClass::Write, table),
            is_result(before.2, now.2, *self, FdClass::Except, table),
    {
        self.lemma_partial_done_in(FdClass::Read, before.0, now.0, table, upto);
        self.lemma_partial_done_in(FdClass::Write, before.1, now.1, table, upto);
        self.lemma_partial_done_in(FdClass::Except, before.2, now.2, table, upto);
    }
}

/// The smaller of two numbers.
pub open spec fn min(a: int, b: int) -> int {
    if a <= b {
        a
    } else {
        b
    }
}

impl SelectCall {
    /// Whether the call goes on with passes over the interest that the three
    /// sets state for `nfds` descriptors, and blocks as `timeout` says.
    pub open spec fn is_evaluation_of(
        self,
        nfds: int,
        read_fds: UserPtr<FdSet>,
        write_fds: UserPtr<FdSet>,
        except_fds: UserPtr<FdSet>,
        timeout: Timeout,
    ) -> bool {
        &&& self matches SelectCall::Evaluate { fd_sets, timeout: armed }
        &&& fd_sets.is_interest_of(nfds, read_fds, write_fds, except_fds)
        &&& armed == timeout
    }
}

/// The three sets of a call, in the order read, write, except.
pub type Sets = (UserPtr<FdSet>, UserPtr<FdSet>, UserPtr<FdSet>);

/// Whether `r` and `after` are what the start of a call of `select` makes of
/// `nfds`, the three sets `before` and the timeout.
///
/// A negative `nfds` is an invalid argument, and a call that covers no
/// descriptor is over at once and returns 0; neither touches the sets. Any
/// other call covers `nfds` descriptors, at most as many as a set holds: it
/// takes its interest from the sets, clears in each accessible set the words
/// of the descriptors that it covers, and goes on with evaluation passes.
pub open spec fn is_select_start(
    nfds: i32,
    before: Sets,
    timeout: Option<Timeval>,
    after: Sets,
    r: Result<SelectCall, Errno>,
) -> bool {
    if nfds < 0 {
        r == Err::<SelectCall, Errno>(Errno::InvalidArgument) && after == before
    } else if nfds == 0 {
        r == Ok::<SelectCall, Errno>(SelectCall::Done(0)) && after == before
    } else {
        let covered = min(nfds as int, FD_SETSIZE as int);
        &&& r is Ok
        &&& r->Ok_0.is_evaluation_of(
            covered,
            before.0,
            before.1,
            before.2,
            spec_select_timeout(timeout),
        )
        &&& is_cleared(before.0, after.0, covered)
        &&& is_cleared(before.1, after.1, covered)
        &&& is_cleared(before.2, after.2, covered)
    }
}

/// Starts a call of `select` on sets that the caller's pointers have been
/// resolved to, with the timeout as an optional time.
pub fn sys_select1(
    nfds: i32,
    readfds: &mut UserPtr<FdSet>,
    writefds: &mut UserPtr<FdSet>,
    exceptfds: &mut UserPtr<FdSet>,
    timeout: Option<Timeval>,
) -> (r: Result<SelectCall, Errno>)
    ensures
        is_select_start(
            nfds,
            (*old(readfds), *old(writefds), *old(exceptfds)),
            timeout,
            (*final(readfds), *final(writefds), *final(exceptfds)),
            r,
        ),
{
    if nfds < 0 {
        return Err(Errno::InvalidArgument);
    }
    if nfds == 0 {
        return Ok(SelectCall::Done(0));
    }
    let nfds = if (nfds as usize) < FD_SETSIZE {
        nfds as usize
    } else {
        FD_SETSIZE
    };
    let timeout = select_timeout(timeout);
    let fd_sets = FdSets::from(nfds, readfds, writefds, exceptfds);
    zero_fd_set(readfds, nfds);
    zero_fd_set(writefds, nfds);
    zero_fd_set(exceptfds, nfds);
    Ok(SelectCall::Evaluate { fd_sets, timeout })
}

/// The timeout that `select` acts on: the time behind the pointer, and a time
/// of zero where the pointer is null.
pub open spec fn timeout_or_zero(timeout: UserPtr<Timeval>) -> Option<Timeval> {
    match timeout {
        UserPtr::Mapped(tv) => Some(tv),
        _ => Some(Timeval { tv_sec: 0, tv_usec: 0 }),
    }
}

/// Whether one of the four pointers of `select` is neither null nor
/// accessible.
pub open spec fn select_faults(before: Sets, timeout: UserPtr<Timeval>) -> bool {
    before.0 is Unmapped || before.1 is Unmapped || before.2 is Unmapped || timeout is Unmapped
}

/// Starts a call of `select`.
///
/// A pointer that is neither null nor accessible fails the call with
/// `BadAddress` before anything else is looked at. A null set is an empty set,
/// and a null timeout is a timeout of zero.
pub fn sys_select(
    nfds: i32,
    readfds: &mut UserPtr<FdSet>,
    writefds: &mut UserPtr<FdSet>,
    exceptfds: &mut UserPtr<FdSet>,
    timeout: &UserPtr<Timeval>,
) -> (r: Result<SelectCall, Errno>)
    ensures
        select_faults((*old(readfds), *old(writefds), *old(exceptfds)), *timeout) ==> {
            &&& r == Err::<SelectCall, Errno>(Errno::BadAddress)
            &&& *final(readfds) == *old(readfds)
            &&& *final(writefds) == *old(writefds)
            &&& *final(exceptfds) == *old(exceptfds)
        },
        !select_faults((*old(readfds), *old(writefds), *old(exceptfds)), *timeout)
            ==> is_select_start(
            nfds,
            (*old(readfds), *old(writefds), *old(exceptfds)),
            timeout_or_zero(*timeout),
            (*final(readfds), *final(writefds), *final(exceptfds)),
            r,
        ),
{
    if !readfds.is_null() && readfds.get_as_ref().is_err() {
        return Err(Errno::BadAddress);
    }
    if !writefds.is_null() && writefds.get_as_ref().is_err() {
        return Err(Errno::BadAddress);
    }
    if !exceptfds.is_null() && exceptfds.get_as_ref().is_err() {
        return Err(Errno::BadAddress);
    }
    let timeout1 = if timeout.is_null() {
        Timeval { tv_sec: 0, tv_usec: 0 }
    } else {
        match timeout.get_as_ref() {
            Ok(tv) => *tv,
            Err(errno) => {
                return Err(errno);
            },
        }
    };
    sys_select1(nfds, readfds, writefds, exceptfds, Some(timeout1))
}

/// Starts a call of `pselect6`.
///
/// The signal mask must be accessible, or the call fails with `BadAddress`;
/// it is not applied. Everything else is as for `select`.
pub fn sys_pselect6(
    nfds: i32,
    readfds: &mut UserPtr<FdSet>,
    writefds: &mut UserPtr<FdSet>,
    exceptfds: &mut UserPtr<FdSet>,
    timeout: &UserPtr<Timeval>,
    sigmask: &UserPtr<u8>,
) -> (r: Result<SelectCall, Errno>)
    ensures
        !(*sigmask is Mapped) || select_faults(
            (*old(readfds), *old(writefds), *old(exceptfds)),
            *timeout,
        ) ==> {
            &&& r == Err::<SelectCall, Errno>(Errno::BadAddress)
            &&& *final(readfds) == *old(readfds)
            &&& *final(writefds) == *old(writefds)
            &&& *final(exceptfds) == *old(exceptfds)
        },
        *sigmask is Mapped && !select_faults(
            (*old(readfds), *old(writefds), *old(exceptfds)),
            *timeout,
        ) ==> is_select_start(
            nfds,
            (*old(readfds), *old(writefds), *old(exceptfds)),
            timeout_or_zero(*timeout),
            (*final(readfds), *final(writefds), *final(exceptfds)),
            r,
        ),
{
    match sigmask.get_as_ref() {
        Ok(_) => {},
        Err(errno) => {
            return Err(errno);
        },
    }
    sys_select(nfds, readfds, writefds, exceptfds, timeout)
}

/// A call of `select` that covers no descriptor is over at its start and
/// returns 0: it runs no pass and does not block, whatever the timeout is and
/// whatever the sets are, which it leaves as they were.
pub proof fn lemma_no_descriptors_returns_at_once(
    before: Sets,
    timeout: Option<Timeval>,
    after: Sets,
    r: Result<SelectCall, Errno>,
)
    requires
        is_select_start(0, before, timeout, after, r),
    ensures
        r == Ok::<SelectCall, Errno>(SelectCall::Done(0)),
        after == before,
{
}

/// A descriptor that the caller did not ask about in a class is never
/// reported in it, and a descriptor beyond those that the call covers is
/// reported in none, whatever the table holds.
pub proof fn lemma_only_requested_is_reported(sets: FdSets, class: FdClass, fd: int, table: FdTable)
    requires
        sets.wf(),
        !sets.requested(class, fd) || fd >= sets.spec_nfds(),
    ensures
        !sets.found_ready(class, fd, table),
{
}

/// The count of a pass depends on the table only through the descriptors
/// that the caller asked about: two tables that answer alike for each of them
/// give the same count.
pub proof fn lemma_count_reads_requested_only(
    sets: FdSets,
    table: FdTable,
    other: FdTable,
    upto: int,
)
    requires
        forall|fd: int|
            0 <= fd < upto && sets.requested_at_all(fd) ==> table.spec_probe(fd)
                == other.spec_probe(fd),
    ensures
        sets.ready_upto(table, upto) == sets.ready_upto(other, upto),
    decreases upto,
{
    if upto > 0 {
        lemma_count_reads_requested_only(sets, table, other, upto - 1);
        assert(sets.requested_at_all(upto - 1) ==> table.spec_probe(upto - 1) == other.spec_probe(
            upto - 1,
        ));
    }
}

/// Whether a scan of the caller's own set of `class`, one bit after the
/// other, reports `fd`: the set holds it, and the descriptor is readable for
/// the read class, writable for the write class, and not open or not
/// answering for the except class.
pub open spec fn scan_reports(
    fds: UserPtr<FdSet>,
    class: FdClass,
    fd: int,
    table: FdTable,
) -> bool {
    holds(fds, fd) && match table.spec_probe(fd) {
        Probe::State(state) => (class == FdClass::Read && state.readable) || (class
            == FdClass::Write && state.writable),
        _ => class == FdClass::Except,
    }
}

/// The count of a scan of the caller's three sets over the descriptors below
/// `upto`, one bit after the other.
pub open spec fn scan_count(given: Sets, table: FdTable, upto: int) -> nat
    decreases upto,
{
    if upto <= 0 {
        0
    } else {
        scan_count(given, table, upto - 1) + (if scan_reports(
            given.0,
            FdClass::Read,
            upto - 1,
            table,
        ) {
            1nat
        } else {
            0nat
        }) + (if scan_reports(given.1, FdClass::Write, upto - 1, table) {
            1nat
        } else {
            0nat
        }) + (if scan_reports(given.2, FdClass::Except, upto - 1, table) {
            1nat
        } else {
            0nat
        })
    }
}

/// A pass is the scan of the caller's sets bit by bit, wherever the words of
/// the bitmaps end: for a call that covers `nfds` descriptors, the pass
/// reports a descriptor in a class exactly if the descriptor is below `nfds`
/// and the scan of that class reports it, and the count of the pass is the
/// count of the scan over the descriptors below `nfds`.
pub proof fn lemma_pass_is_the_scan_bit_by_bit(sets: FdSets, nfds: int, given: Sets, table: FdTable)
    requires
        sets.is_interest_of(nfds, given.0, given.1, given.2),
    ensures
        forall|fd: int| #[trigger]
            sets.found_ready(FdClass::Read, fd, table) == (fd < nfds && scan_reports(
                given.0,
                FdClass::Read,
                fd,
                table,
            )),
        forall|fd: int| #[trigger]
            sets.found_ready(FdClass::Write, fd, table) == (fd < nfds && scan_reports(
                given.1,
                FdClass::Write,
                fd,
                table,
            )),
        forall|fd: int| #[trigger]
            sets.found_ready(FdClass::Except, fd, table) == (fd < nfds && scan_reports(
                given.2,
                FdClass::Except,
                fd,
                table,
            )),
        sets.ready_total(table) == scan_count(given, table, nfds),
{
    lemma_counts_agree(sets, nfds, given, table, nfds);
}

proof fn lemma_counts_agree(sets: FdSets, nfds: int, given: Sets, table: FdTable, upto: int)
    requires
        sets.is_interest_of(nfds, given.0, given.1, given.2),
        upto <= nfds,
    ensures
        sets.ready_upto(table, upto) == scan_count(given, table, upto),
    decreases upto,
{
    if upto > 0 {
        lemma_counts_agree(sets, nfds, given, table, upto - 1);
    }
}

/// What a result set of `class` holds after a pass that found something:
/// the set that the caller gave was cleared at the start of the call and took
/// in what the pass reports, so that below the end of the words that the call
/// covers it holds exactly the descriptors below `nfds` that the scan of the
/// caller's set reports, and beyond those words what the caller left there.
pub proof fn lemma_result_set_of_a_call(
    sets: FdSets,
    nfds: int,
    given: Sets,
    class: FdClass,
    cleared: UserPtr<FdSet>,
    result: UserPtr<FdSet>,
    table: FdTable,
    fd: int,
)
    requires
        0 <= nfds <= FD_SETSIZE,
        sets.is_interest_of(nfds, given.0, given.1, given.2),
        is_cleared(source_of(given, class), cleared, nfds),
        is_result(cleared, result, sets, class, table),
    ensures
        holds(result, fd) == if fd < BITS_PER_WORD * words_for(nfds) {
            fd < nfds && scan_reports(source_of(given, class), class, fd, table)
        } else {
            holds(source_of(given, class), fd)
        },
{
    lemma_pass_is_the_scan_bit_by_bit(sets, nfds, given, table);
    let source = source_of(given, class);
    if let UserPtr::Mapped(set) = source {
        let emptied = cleared->Mapped_0;
        assert(result->Mapped_0.contains(fd) == (emptied.contains(fd) || sets.found_ready(
            class,
            fd,
            table,
        )));
        if 0 <= fd < FD_SETSIZE {
            assert(emptied.fds_bits@[fd / 64] == if fd / 64 < words_for(nfds) {
                0u64
            } else {
                set.fds_bits@[fd / 64]
            });
            lemma_bit_of_zero((fd % 64) as u64);
        }
    }
}

/// The caller's set of a class.
pub open spec fn source_of(given: Sets, class: FdClass) -> UserPtr<FdSet> {
    match class {
        FdClass::Read => given.0,
        FdClass::Write => given.1,
        FdClass::Except => given.2,
    }
}

} // verus!
