//! `poll` and `ppoll`: readiness of an array of descriptors.

use vstd::prelude::*;
use crate::abi::{POLLERR, POLLIN, POLLNVAL, POLLOUT, SIGSET_SIZE};
use crate::errno::Errno;
use crate::ptr::UserPtr;
use crate::readiness::{FdTable, Probe};
use crate::time::Timespec;
use crate::wait::{poll_timeout, ppoll_timeout, spec_poll_timeout, spec_ppoll_timeout, Timeout};

verus! {

/// One entry of the array that `poll` works on.
#[derive(Clone, Copy, Debug, PartialEq, Eq, Structural)]
pub struct PollFd {
    /// The descriptor; an entry with a negative descriptor is skipped.
    pub fd: i32,
    /// The events that the caller asks about.
    pub events: i16,
    /// The events that were observed.
    pub revents: i16,
}

/// A call of `poll` or `ppoll` after its arguments have been checked.
#[derive(Debug, PartialEq, Eq)]
pub enum PollCall {
    /// The call is over and returns this count.
    Done(usize),
    /// The call goes on with evaluation passes over `poll_fds`, the kernel's
    /// copy of the caller's array, and blocks as `timeout` says.
    Evaluate { poll_fds: Vec<PollFd>, timeout: Timeout },
}

impl PollCall {
    /// Whether the call goes on with passes over a copy of `entries` and
    /// blocks as `timeout` says.
    pub open spec fn is_evaluation_of(self, entries: Seq<PollFd>, timeout: Timeout) -> bool {
        &&& self matches PollCall::Evaluate { poll_fds, timeout: armed }
        &&& poll_fds@ == entries
        &&& armed == timeout
    }
}

/// Whether `events` asks about `flag`.
pub open spec fn wants(events: i16, flag: i16) -> bool {
    events & flag != 0
}

/// The events observed on a descriptor that was asked about `events` and
/// answered `probe`: `POLLNVAL` for a descriptor that is not open, `POLLERR`
/// for a failed query, and otherwise those of `POLLIN` and `POLLOUT` that were
/// asked about and hold.
pub open spec fn observed(events: i16, probe: Probe) -> i16 {
    match probe {
        Probe::NotFound => POLLNVAL,
        Probe::Failed => POLLERR,
        Probe::State(state) => {
            if state.readable && wants(events, POLLIN) {
                if state.writable && wants(events, POLLOUT) {
                    (POLLIN + POLLOUT) as i16
                } else {
                    POLLIN
                }
            } else {
                if state.writable && wants(events, POLLOUT) {
                    POLLOUT
                } else {
                    0i16
                }
            }
        },
    }
}

/// An entry after a pass: untouched where the descriptor is negative, and
/// otherwise with the observed events in place of the earlier ones.
pub open spec fn evaluated(entry: PollFd, table: FdTable) -> PollFd {
    if entry.fd < 0 {
        entry
    } else {
        PollFd { revents: observed(entry.events, table.spec_probe(entry.fd as int)), ..entry }
    }
}

/// Whether an entry counts as ready: it was not skipped and something was
/// observed on it.
pub open spec fn is_ready(entry: PollFd) -> bool {
    entry.fd >= 0 && entry.revents != 0
}

/// The number of ready entries.
pub open spec fn ready_count(entries: Seq<PollFd>) -> nat
    decreases entries.len(),
{
    if entries.len() == 0 {
        0
    } else {
        ready_count(entries.drop_last()) + if is_ready(entries.last()) {
            1nat
        } else {
            0nat
        }
    }
}

/// An entry of the caller's array after a pass: the observed events of the
/// kernel's entry are stored in it unless that entry was skipped.
pub open spec fn reported(user: PollFd, kernel: PollFd) -> PollFd {
    if kernel.fd < 0 {
        user
    } else {
        PollFd { revents: kernel.revents, ..user }
    }
}

/// Whether `after` is what a pass over `before` leaves in the kernel's copy:
/// every entry evaluated against `table`.
pub open spec fn is_pass(before: Seq<PollFd>, after: Seq<PollFd>, table: FdTable) -> bool {
    &&& after.len() == before.len()
    &&& forall|i: int| 0 <= i < before.len() ==> after[i] == evaluated(before[i], table)
}

/// Whether `after` is what a pass leaves in the caller's array, which held
/// `before`: the entries that the kernel's copy `kernel` covers are reported,
/// and the entries behind them are as they were.
pub open spec fn is_report(before: Seq<PollFd>, after: Seq<PollFd>, kernel: Seq<PollFd>) -> bool {
    &&& after.len() == before.len()
    &&& forall|i: int|
        0 <= i < before.len() ==> after[i] == if i < kernel.len() {
            reported(before[i], kernel[i])
        } else {
            before[i]
        }
}

/// The ready entries are never more than the entries.
pub proof fn lemma_ready_count_bound(entries: Seq<PollFd>)
    ensures
        ready_count(entries) <= entries.len(),
    decreases entries.len(),
{
    if entries.len() > 0 {
        lemma_ready_count_bound(entries.drop_last());
    }
}

/// The descriptors that a pass over `entries` looks up: those that are not
/// negative, in the order of their entries.
pub open spec fn spec_probed_descriptors(entries: Seq<PollFd>) -> Seq<i32> {
    entries.filter(|entry: PollFd| entry.fd >= 0).map_values(|entry: PollFd| entry.fd)
}

/// The descriptors that a pass over `poll_fds` looks up. Before a pass, the
/// registry is asked about these and about no others.
pub fn probed_descriptors(poll_fds: &Vec<PollFd>) -> (fds: Vec<i32>)
    ensures
        fds@ == spec_probed_descriptors(poll_fds@),
{
    let mut fds: Vec<i32> = Vec::new();
    let mut i: usize = 0;
    while i < poll_fds.len()
        invariant
            i <= poll_fds@.len(),
            fds@ == spec_probed_descriptors(poll_fds@.subrange(0, i as int)),
        decreases poll_fds@.len() - i,
    {
        let entry = poll_fds[i];
        proof {
            reveal(Seq::filter);
            let kept = |entry: PollFd| entry.fd >= 0;
            let next = poll_fds@.subrange(0, i + 1);
            assert(next.drop_last() =~= poll_fds@.subrange(0, i as int));
            assert(next.filter(kept) =~= if kept(entry) {
                next.drop_last().filter(kept).push(entry)
            } else {
                next.drop_last().filter(kept)
            });
        }
        if entry.fd >= 0 {
            fds.push(entry.fd);
        }
        i += 1;
    }
    assert(poll_fds@.subrange(0, poll_fds@.len() as int) =~= poll_fds@);
    fds
}

/// Observes one descriptor.
fn observe(events: i16, probe: Probe) -> (revents: i16)
    ensures
        revents == observed(events, probe),
{
    let mut revents: i16 = 0;
    match probe {
        Probe::State(state) => {
            if state.readable && (events & POLLIN != 0) {
                revents = revents | POLLIN;
            }
            if state.writable && (events & POLLOUT != 0) {
                revents = revents | POLLOUT;
            }
        },
        Probe::Failed => {
            revents = revents | POLLERR;
        },
        Probe::NotFound => {
            revents = revents | POLLNVAL;
        },
    }
    assert(0i16 | 1i16 == 1i16 && 0i16 | 4i16 == 4i16 && 1i16 | 4i16 == 5i16 && 0i16 | 8i16 == 8i16
        && 0i16 | 32i16 == 32i16) by (bit_vector);
    revents
}

/// Runs one evaluation pass over `poll_fds` and returns the number of ready
/// entries.
///
/// Every entry with a descriptor that is not negative loses its earlier
/// observed events, is looked up in `table`, and gets the events observed now;
/// they are stored in the caller's array at once, entry by entry. An entry
/// with a negative descriptor is neither looked up nor changed nor counted.
/// The pass fails with `BadAddress`, and changes nothing, where the caller's
/// array is not accessible over the length of `poll_fds`.
pub fn poll_once(
    poll_fds: &mut Vec<PollFd>,
    user_fds: &mut UserPtr<Vec<PollFd>>,
    table: &FdTable,
) -> (r: Result<usize, Errno>)
    ensures
        !old(user_fds).spans(old(poll_fds)@.len() as int) ==> {
            &&& r == Err::<usize, Errno>(Errno::BadAddress)
            &&& final(poll_fds)@ == old(poll_fds)@
            &&& *final(user_fds) == *old(user_fds)
        },
        old(user_fds).spans(old(poll_fds)@.len() as int) ==> {
            &&& r is Ok
            &&& r->Ok_0 == ready_count(final(poll_fds)@)
            &&& *final(user_fds) is Mapped
            &&& is_pass(old(poll_fds)@, final(poll_fds)@, *table)
            &&& is_report(old(user_fds)->Mapped_0@, final(user_fds)->Mapped_0@, final(poll_fds)@)
        },
{
    let len = poll_fds.len();
    let user = match user_fds {
        UserPtr::Mapped(user) => user,
        _ => {
            return Err(Errno::BadAddress);
        },
    };
    if len > user.len() {
        return Err(Errno::BadAddress);
    }
    let ghost kernel_before = poll_fds@;
    let ghost user_before = user@;
    let mut ready: usize = 0;
    let mut i: usize = 0;
    while i < len
        invariant
            i <= len,
            len == kernel_before.len(),
            len <= user_before.len(),
            poll_fds@.len() == len,
            user@.len() == user_before.len(),
            forall|k: int| 0 <= k < i ==> poll_fds@[k] == evaluated(kernel_before[k], *table),
            forall|k: int| i <= k < len ==> poll_fds@[k] == kernel_before[k],
            forall|k: int| 0 <= k < i ==> user@[k] == reported(user_before[k], poll_fds@[k]),
            forall|k: int| i <= k < user_before.len() ==> user@[k] == user_before[k],
            ready == ready_count(poll_fds@.subrange(0, i as int)),
            ready <= i,
        decreases len - i,
    {
        let entry = poll_fds[i];
        let ghost counted = poll_fds@.subrange(0, i as int);
        if entry.fd >= 0 {
            let revents = observe(entry.events, table.probe(entry.fd));
            poll_fds.set(i, PollFd { fd: entry.fd, events: entry.events, revents });
            let slot = user[i];
            user.set(i, PollFd { fd: slot.fd, events: slot.events, revents });
            if revents != 0 {
                ready += 1;
            }
        }
        proof {
            let next = poll_fds@.subrange(0, i + 1);
            assert(next.drop_last() =~= counted);
        }
        i += 1;
    }
    assert(poll_fds@.subrange(0, len as int) =~= poll_fds@);
    Ok(ready)
}

/// The kernel's copy of the first `nfds` entries of the caller's array.
fn copy_entries(user: &Vec<PollFd>, nfds: usize) -> (poll_fds: Vec<PollFd>)
    requires
        nfds <= user@.len(),
    ensures
        poll_fds@ == user@.subrange(0, nfds as int),
{
    let mut poll_fds: Vec<PollFd> = Vec::new();
    let mut i: usize = 0;
    while i < nfds
        invariant
            i <= nfds <= user@.len(),
            poll_fds@ == user@.subrange(0, i as int),
        decreases nfds - i,
    {
        poll_fds.push(user[i]);
        i += 1;
    }
    poll_fds
}

/// Starts a call of `poll`.
///
/// With no descriptors the call is over at once and returns 0, whatever the
/// timeout and whatever the pointer. Otherwise the first `nfds` entries of the
/// caller's array are copied, which fails with `BadAddress` where they are not
/// accessible, and the timeout in milliseconds is brought to its form.
pub fn sys_poll(fds: &UserPtr<Vec<PollFd>>, nfds: u32, timeout: i32) -> (r: Result<PollCall, Errno>)
    ensures
        nfds == 0 ==> r == Ok::<PollCall, Errno>(PollCall::Done(0)),
        nfds != 0 && !fds.spans(nfds as int) ==> r == Err::<PollCall, Errno>(Errno::BadAddress),
        nfds != 0 && fds.spans(nfds as int) ==> r is Ok && r->Ok_0.is_evaluation_of(
            fds->Mapped_0@.subrange(0, nfds as int),
            spec_poll_timeout(timeout),
        ),
{
    if nfds == 0 {
        return Ok(PollCall::Done(0));
    }
    let user = match fds.get_as_slice(nfds as usize) {
        Ok(user) => user,
        Err(errno) => {
            return Err(errno);
        },
    };
    let poll_fds = copy_entries(user, nfds as usize);
    Ok(PollCall::Evaluate { poll_fds, timeout: poll_timeout(timeout) })
}

/// What `ppoll` finds wrong with its arguments other than the array, if
/// anything: the time behind `timeout_ts` first, then the size of the signal
/// mask, which counts only where a mask is given.
pub open spec fn spec_ppoll_arguments(
    timeout_ts: UserPtr<Timespec>,
    sigmask: UserPtr<u64>,
    sigsetsize: usize,
) -> Result<Timeout, Errno> {
    match spec_ppoll_timeout(timeout_ts) {
        Err(errno) => Err(errno),
        Ok(timeout) => {
            if !(sigmask is Null) && sigsetsize != SIGSET_SIZE {
                Err(Errno::InvalidArgument)
            } else {
                Ok(timeout)
            }
        },
    }
}

/// Starts a call of `ppoll`.
///
/// With no descriptors the call is over at once and returns 0, whatever the
/// other arguments. Otherwise the timeout is checked, then the size of the
/// signal mask, and then the first `nfds` entries of the caller's array are
/// copied. The signal mask itself is not applied.
pub fn sys_ppoll(
    fds: &UserPtr<Vec<PollFd>>,
    nfds: u32,
    timeout_ts: &UserPtr<Timespec>,
    sigmask: &UserPtr<u64>,
    sigsetsize: usize,
) -> (r: Result<PollCall, Errno>)
    ensures
        nfds == 0 ==> r == Ok::<PollCall, Errno>(PollCall::Done(0)),
        nfds != 0 ==> match spec_ppoll_arguments(*timeout_ts, *sigmask, sigsetsize) {
            Err(errno) => r == Err::<PollCall, Errno>(errno),
            Ok(timeout) => {
                if fds.spans(nfds as int) {
                    r is Ok && r->Ok_0.is_evaluation_of(
                        fds->Mapped_0@.subrange(0, nfds as int),
                        timeout,
                    )
                } else {
                    r == Err::<PollCall, Errno>(Errno::BadAddress)
                }
            },
        },
{
    if nfds == 0 {
        return Ok(PollCall::Done(0));
    }
    let timeout = match ppoll_timeout(timeout_ts) {
        Ok(timeout) => timeout,
        Err(errno) => {
            return Err(errno);
        },
    };
    if !sigmask.is_null() && sigsetsize != SIGSET_SIZE {
        return Err(Errno::InvalidArgument);
    }
    let user = match fds.get_as_slice(nfds as usize) {
        Ok(user) => user,
        Err(errno) => {
            return Err(errno);
        },
    };
    let poll_fds = copy_entries(user, nfds as usize);
    Ok(PollCall::Evaluate { poll_fds, timeout })
}

/// An entry with a negative descriptor is skipped: a pass leaves it as it
/// is, so that observed events that were zero stay zero, it does so whatever
/// the table holds, and the entry does not count as ready.
pub proof fn lemma_negative_entry_is_skipped(entry: PollFd, table: FdTable, other: FdTable)
    requires
        entry.fd < 0,
    ensures
        evaluated(entry, table) == entry,
        evaluated(entry, table) == evaluated(entry, other),
        entry.revents == 0 ==> evaluated(entry, table).revents == 0,
        !is_ready(evaluated(entry, table)),
{
}

/// The entries with a negative descriptor add nothing to the count of ready
/// entries: the count is that of the entries without them.
pub proof fn lemma_ready_count_ignores_negative(entries: Seq<PollFd>)
    ensures
        ready_count(entries) == ready_count(entries.filter(|entry: PollFd| entry.fd >= 0)),
    decreases entries.len(),
{
    reveal(Seq::filter);
    let kept = |entry: PollFd| entry.fd >= 0;
    if entries.len() > 0 {
        let rest = entries.drop_last();
        lemma_ready_count_ignores_negative(rest);
        if kept(entries.last()) {
            assert(rest.filter(kept).push(entries.last()).drop_last() =~= rest.filter(kept));
        }
    }
}

/// A pass reads the table at the descriptors of its entries that are not
/// negative, and nowhere else: two tables that answer alike for each of them
/// leave every entry the same.
pub proof fn lemma_pass_reads_probed_only(
    entries: Seq<PollFd>,
    table: FdTable,
    other: FdTable,
    i: int,
)
    requires
        0 <= i < entries.len(),
        forall|k: int|
            0 <= k < entries.len() && entries[k].fd >= 0 ==> table.spec_probe(entries[k].fd as int)
                == other.spec_probe(entries[k].fd as int),
    ensures
        evaluated(entries[i], table) == evaluated(entries[i], other),
{
}

} // verus!
