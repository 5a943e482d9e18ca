//! `getrusage`: the resources that the calling process has used.

use vstd::prelude::*;
use crate::abi::RUSAGE_SELF;
use crate::errno::Errno;
use crate::ptr::UserPtr;
use crate::time::{Timeval, MICROS_PER_SEC};

verus! {

/// Resource usage as `getrusage` reports it.
#[derive(Clone, Copy, Debug, PartialEq, Eq, Structural)]
pub struct RUsage {
    /// User CPU time.
    pub ru_utime: Timeval,
    /// System CPU time.
    pub ru_stime: Timeval,
    /// Maximum resident set size.
    pub ru_maxrss: i64,
    /// Size of the shared memory.
    pub ru_ixrss: i64,
    /// Size of the unshared data.
    pub ru_idrss: i64,
    /// Size of the unshared stack.
    pub ru_isrss: i64,
    /// Page faults served without input or output.
    pub ru_minflt: i64,
    /// Page faults served with input or output.
    pub ru_majflt: i64,
    /// Swaps.
    pub ru_nswap: i64,
    /// Block input operations.
    pub ru_inblock: i64,
    /// Block output operations.
    pub ru_oublock: i64,
    /// Messages sent.
    pub ru_msgsnd: i64,
    /// Messages received.
    pub ru_msgrcv: i64,
    /// Signals received.
    pub ru_nsignals: i64,
    /// Voluntary context switches.
    pub ru_nvcsw: i64,
    /// Involuntary context switches.
    pub ru_nivcsw: i64,
}

/// A number of microseconds as seconds and microseconds.
pub open spec fn spec_split_micros(micros: usize) -> Timeval {
    Timeval {
        tv_sec: (micros / MICROS_PER_SEC as usize) as i64,
        tv_usec: (micros % MICROS_PER_SEC as usize) as i64,
    }
}

/// The usage of a process that has consumed `utime_us` microseconds of user
/// time and `stime_us` microseconds of system time: the two times, and zero in
/// every other field.
pub open spec fn spec_usage(utime_us: usize, stime_us: usize) -> RUsage {
    RUsage {
        ru_utime: spec_split_micros(utime_us),
        ru_stime: spec_split_micros(stime_us),
        ru_maxrss: 0,
        ru_ixrss: 0,
        ru_idrss: 0,
        ru_isrss: 0,
        ru_minflt: 0,
        ru_majflt: 0,
        ru_nswap: 0,
        ru_inblock: 0,
        ru_oublock: 0,
        ru_msgsnd: 0,
        ru_msgrcv: 0,
        ru_nsignals: 0,
        ru_nvcsw: 0,
        ru_nivcsw: 0,
    }
}

/// A number of microseconds as seconds and microseconds, by way of
/// nanoseconds.
fn split_micros(micros: usize) -> (tv: Timeval)
    ensures
        tv == spec_split_micros(micros),
        tv.spec_total_micros() == micros,
        0 <= tv.tv_usec < MICROS_PER_SEC,
{
    let nanos: u128 = (micros as u128) * 1_000;
    let sec: u128 = nanos / 1_000_000_000;
    let usec: u128 = (nanos % 1_000_000_000) / 1_000;
    Timeval { tv_sec: sec as i64, tv_usec: usec as i64 }
}

/// Reports the resources that the calling process has used.
///
/// `utime_us` and `stime_us` are the user and system time that the process
/// has consumed, in microseconds. Any target but the calling process is an
/// invalid argument. The usage is stored behind `usage`, which fails with
/// `BadAddress` where that is not accessible, and the call returns 0.
pub fn sys_getrusage(
    who: u32,
    usage: &mut UserPtr<RUsage>,
    utime_us: usize,
    stime_us: usize,
) -> (r: Result<isize, Errno>)
    ensures
        who != RUSAGE_SELF ==> r == Err::<isize, Errno>(Errno::InvalidArgument),
        who != RUSAGE_SELF ==> *final(usage) == *old(usage),
        who == RUSAGE_SELF ==> r == old(usage).stored(),
        who == RUSAGE_SELF ==> *final(usage) == old(usage).written(spec_usage(utime_us, stime_us)),
{
    if who != RUSAGE_SELF {
        return Err(Errno::InvalidArgument);
    }
    let rusage = RUsage {
        ru_utime: split_micros(utime_us),
        ru_stime: split_micros(stime_us),
        ru_maxrss: 0,
        ru_ixrss: 0,
        ru_idrss: 0,
        ru_isrss: 0,
        ru_minflt: 0,
        ru_majflt: 0,
        ru_nswap: 0,
        ru_inblock: 0,
        ru_oublock: 0,
        ru_msgsnd: 0,
        ru_msgrcv: 0,
        ru_nsignals: 0,
        ru_nvcsw: 0,
        ru_nivcsw: 0,
    };
    match usage.write(rusage) {
        Ok(()) => Ok(0),
        Err(errno) => Err(errno),
    }
}

} // verus!
