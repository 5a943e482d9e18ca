//! Time values as the callers hand them over and receive them, and the calls
//! that report the time.
//!
//! A reading of a clock is a number of nanoseconds.

use vstd::prelude::*;
use crate::abi::{CLOCK_MONOTONIC, CLOCK_PROCESS_CPUTIME_ID, CLOCK_REALTIME};
use crate::errno::Errno;
use crate::ptr::UserPtr;

verus! {

/// Nanoseconds in one second.
pub const NANOS_PER_SEC: u64 = 1_000_000_000;

/// Nanoseconds in one millisecond.
pub const NANOS_PER_MILLI: u64 = 1_000_000;

/// Nanoseconds in one microsecond.
pub const NANOS_PER_MICRO: u64 = 1_000;

/// Microseconds in one second.
pub const MICROS_PER_SEC: u64 = 1_000_000;

/// A time in seconds and nanoseconds.
#[derive(Clone, Copy, Debug, PartialEq, Eq, Structural)]
pub struct Timespec {
    /// Whole seconds.
    pub tv_sec: i64,
    /// Nanoseconds beyond the whole seconds.
    pub tv_nsec: i64,
}

/// A time in seconds and microseconds.
#[derive(Clone, Copy, Debug, PartialEq, Eq, Structural)]
pub struct Timeval {
    /// Whole seconds.
    pub tv_sec: i64,
    /// Microseconds beyond the whole seconds.
    pub tv_usec: i64,
}

impl Timespec {
    /// Whether both fields are in range: neither is negative, and the
    /// nanoseconds stay below one second.
    pub open spec fn spec_is_valid(self) -> bool {
        self.tv_sec >= 0 && 0 <= self.tv_nsec < NANOS_PER_SEC
    }

    /// The time in nanoseconds; negative where the fields add up to less than
    /// nothing.
    pub open spec fn spec_total_nanos(self) -> int {
        self.tv_sec * NANOS_PER_SEC + self.tv_nsec
    }

    /// Whether both fields are in range.
    #[verifier::when_used_as_spec(spec_is_valid)]
    pub fn is_valid(self) -> (valid: bool)
        ensures
            valid == self.spec_is_valid(),
    {
        self.tv_sec >= 0 && 0 <= self.tv_nsec && self.tv_nsec < 1_000_000_000
    }

    /// The time in nanoseconds.
    pub fn total_nanos(self) -> (nanos: i128)
        ensures
            nanos == self.spec_total_nanos(),
    {
        (self.tv_sec as i128) * 1_000_000_000 + (self.tv_nsec as i128)
    }
}

impl Timeval {
    /// The time in microseconds; negative where the fields add up to less
    /// than nothing.
    pub open spec fn spec_total_micros(self) -> int {
        self.tv_sec * MICROS_PER_SEC + self.tv_usec
    }

    /// The time in microseconds.
    pub fn total_micros(self) -> (micros: i128)
        ensures
            micros == self.spec_total_micros(),
    {
        (self.tv_sec as i128) * 1_000_000 + (self.tv_usec as i128)
    }
}

/// The readings that `clock_gettime` chooses from.
#[derive(Clone, Copy, Debug, PartialEq, Eq, Structural)]
pub struct Clocks {
    /// The wall clock.
    pub wall: u128,
    /// The monotonic clock.
    pub monotonic: u128,
    /// The reading of the monotonic clock at which the program of the calling
    /// process was started, where that was recorded.
    pub started: Option<u128>,
}

/// Process times as `times` reports them.
#[derive(Clone, Copy, Debug, PartialEq, Eq, Structural)]
pub struct Tms {
    /// User time.
    pub tms_utime: usize,
    /// System time.
    pub tms_stime: usize,
    /// User time of the children.
    pub tms_cutime: usize,
    /// System time of the children.
    pub tms_cstime: usize,
}

impl Timespec {
    /// A clock reading in seconds and nanoseconds.
    pub open spec fn spec_from_time_value(nanos: u128) -> Timespec {
        Timespec {
            tv_sec: (nanos / NANOS_PER_SEC as u128) as i64,
            tv_nsec: (nanos % NANOS_PER_SEC as u128) as i64,
        }
    }

    /// A clock reading in seconds and nanoseconds.
    #[verifier::when_used_as_spec(spec_from_time_value)]
    pub fn from_time_value(nanos: u128) -> (ts: Timespec)
        ensures
            ts == Self::spec_from_time_value(nanos),
            0 <= ts.tv_nsec < NANOS_PER_SEC,
            nanos / (NANOS_PER_SEC as u128) <= i64::MAX ==> ts.tv_sec * NANOS_PER_SEC + ts.tv_nsec
                == nanos,
    {
        Timespec { tv_sec: (nanos / 1_000_000_000) as i64, tv_nsec: (nanos % 1_000_000_000) as i64 }
    }
}

impl Timeval {
    /// A clock reading in seconds and microseconds; what is less than a
    /// microsecond is dropped.
    pub open spec fn spec_from_time_value(nanos: u128) -> Timeval {
        Timeval {
            tv_sec: (nanos / NANOS_PER_SEC as u128) as i64,
            tv_usec: (nanos % NANOS_PER_SEC as u128 / NANOS_PER_MICRO as u128) as i64,
        }
    }

    /// A clock reading in seconds and microseconds.
    #[verifier::when_used_as_spec(spec_from_time_value)]
    pub fn from_time_value(nanos: u128) -> (tv: Timeval)
        ensures
            tv == Self::spec_from_time_value(nanos),
            0 <= tv.tv_usec < MICROS_PER_SEC,
            nanos / (NANOS_PER_SEC as u128) <= i64::MAX ==> tv.spec_total_micros() == nanos
                / NANOS_PER_MICRO as u128,
    {
        Timeval {
            tv_sec: (nanos / 1_000_000_000) as i64,
            tv_usec: (nanos % 1_000_000_000 / 1_000) as i64,
        }
    }
}

impl Clocks {
    /// The time since the program of the calling process was started; zero
    /// where the start was not recorded or lies ahead.
    pub open spec fn spec_cpu_time(self) -> u128 {
        match self.started {
            Some(start) => if self.monotonic >= start {
                (self.monotonic - start) as u128
            } else {
                0u128
            },
            None => 0u128,
        }
    }

    /// The time of the clock `clock_id`, or `None` for a clock that is not
    /// supported. The CPU time of the process is the time since its program
    /// was started.
    pub open spec fn spec_reading(self, clock_id: i32) -> Option<u128> {
        if clock_id == CLOCK_REALTIME {
            Some(self.wall)
        } else if clock_id == CLOCK_MONOTONIC {
            Some(self.monotonic)
        } else if clock_id == CLOCK_PROCESS_CPUTIME_ID {
            Some(self.spec_cpu_time())
        } else {
            None
        }
    }

    /// The time of the clock `clock_id`.
    #[verifier::when_used_as_spec(spec_reading)]
    pub fn reading(self, clock_id: i32) -> (now: Option<u128>)
        ensures
            now == self.spec_reading(clock_id),
    {
        if clock_id < 0 {
            return None;
        }
        let clock = clock_id as u32;
        if clock == CLOCK_REALTIME {
            Some(self.wall)
        } else if clock == CLOCK_MONOTONIC {
            Some(self.monotonic)
        } else if clock == CLOCK_PROCESS_CPUTIME_ID {
            match self.started {
                Some(start) => if self.monotonic >= start {
                    Some(self.monotonic - start)
                } else {
                    Some(0)
                },
                None => Some(0),
            }
        } else {
            None
        }
    }
}

/// Reports the time of a clock.
///
/// A clock that is not supported is an invalid argument. Otherwise the time
/// is stored behind `ts`, which fails with `BadAddress` where that is not
/// accessible, and the call returns 0.
pub fn sys_clock_gettime(
    clock_id: i32,
    ts: &mut UserPtr<Timespec>,
    clocks: Clocks,
) -> (r: Result<isize, Errno>)
    ensures
        match clocks.spec_reading(clock_id) {
            None => r == Err::<isize, Errno>(Errno::InvalidArgument) && *final(ts) == *old(ts),
            Some(now) => r == old(ts).stored() && *final(ts) == old(ts).written(
                Timespec::spec_from_time_value(now),
            ),
        },
{
    let now = match clocks.reading(clock_id) {
        Some(now) => now,
        None => {
            return Err(Errno::InvalidArgument);
        },
    };
    match ts.write(Timespec::from_time_value(now)) {
        Ok(()) => Ok(0),
        Err(errno) => Err(errno),
    }
}

/// Reports the time of the wall clock, which reads `wall`.
///
/// The time is stored behind `ts`, which fails with `BadAddress` where that
/// is not accessible, and the call returns 0.
pub fn sys_gettimeofday(ts: &mut UserPtr<Timeval>, wall: u128) -> (r: Result<isize, Errno>)
    ensures
        r == old(ts).stored(),
        *final(ts) == old(ts).written(Timeval::spec_from_time_value(wall)),
{
    match ts.write(Timeval::from_time_value(wall)) {
        Ok(()) => Ok(0),
        Err(errno) => Err(errno),
    }
}

/// The times of a process that has consumed `utime_us` of user time and
/// `stime_us` of system time: they stand for the process and for its children
/// alike.
pub open spec fn spec_times(utime_us: usize, stime_us: usize) -> Tms {
    Tms { tms_utime: utime_us, tms_stime: stime_us, tms_cutime: utime_us, tms_cstime: stime_us }
}

/// Reports the times of the calling process.
///
/// `utime_us` and `stime_us` are the user and system time that the process
/// has consumed, and `ticks` is the reading of the monotonic clock in timer
/// ticks. The times are stored behind `tms`, as the times of the process and
/// as those of its children, which fails with `BadAddress` where that is not
/// accessible; the call returns the ticks, cut to the width of its result.
pub fn sys_times(
    tms: &mut UserPtr<Tms>,
    utime_us: usize,
    stime_us: usize,
    ticks: u64,
) -> (r: Result<isize, Errno>)
    ensures
        r == match old(tms).access() {
            Ok(()) => Ok::<isize, Errno>(ticks as isize),
            Err(errno) => Err::<isize, Errno>(errno),
        },
        *final(tms) == old(tms).written(spec_times(utime_us, stime_us)),
{
    let times = Tms {
        tms_utime: utime_us,
        tms_stime: stime_us,
        tms_cutime: utime_us,
        tms_cstime: stime_us,
    };
    match tms.write(times) {
        Ok(()) => Ok(ticks as isize),
        Err(errno) => Err(errno),
    }
}

} // verus!
