//! How long a readiness call may block, and what it does between two
//! evaluation passes.
//!
//! A blocking call evaluates its descriptors, and where none is ready it
//! either returns or gives up the processor and evaluates again. The functions
//! here take those decisions; the caller runs the passes, reads the clock and
//! yields. Clock readings are in nanoseconds. The reading that arms a wait and
//! the readings that later end it come from one clock: the monotonic clock for
//! the `poll` family, the wall clock for the `select` family.

use vstd::prelude::*;
use crate::errno::Errno;
use crate::ptr::UserPtr;
use crate::time::{Timespec, Timeval, NANOS_PER_MICRO, NANOS_PER_MILLI};

verus! {

/// A timeout as the caller states it, brought to one form.
#[derive(Clone, Copy, Debug, PartialEq, Eq, Structural)]
pub enum Timeout {
    /// Block until a descriptor is ready.
    Infinite,
    /// Evaluate once and return.
    Zero,
    /// Block for at most this many nanoseconds.
    After(u128),
}

/// The state of a blocking call between passes.
#[derive(Clone, Copy, Debug, PartialEq, Eq, Structural)]
pub enum Wait {
    /// One pass only.
    Once,
    /// Until the clock has advanced by `span` nanoseconds beyond `start`.
    Until { start: u128, span: u128 },
    /// Without a deadline.
    Forever,
}

/// What a blocking call does after a pass or after a look at the clock.
#[derive(Clone, Copy, Debug, PartialEq, Eq, Structural)]
pub enum Step {
    /// Return this count to the caller.
    Return(usize),
    /// Read the clock and ask `after_clock`.
    CheckClock,
    /// Give up the processor, then run another pass.
    Yield,
}

/// The timeout of `poll`, given in milliseconds: negative is infinite, zero
/// is one pass.
pub open spec fn spec_poll_timeout(timeout_ms: i32) -> Timeout {
    if timeout_ms < 0 {
        Timeout::Infinite
    } else if timeout_ms == 0 {
        Timeout::Zero
    } else {
        Timeout::After((timeout_ms * NANOS_PER_MILLI) as u128)
    }
}

/// The timeout of `poll`, given in milliseconds.
#[verifier::when_used_as_spec(spec_poll_timeout)]
pub fn poll_timeout(timeout_ms: i32) -> (timeout: Timeout)
    ensures
        timeout == spec_poll_timeout(timeout_ms),
{
    if timeout_ms < 0 {
        Timeout::Infinite
    } else if timeout_ms == 0 {
        Timeout::Zero
    } else {
        Timeout::After((timeout_ms as u128) * 1_000_000)
    }
}

/// The timeout of `ppoll`, given as a pointer to a time: a null pointer is
/// infinite, a time of zero is one pass, and a time with a field out of range
/// is an invalid argument.
pub open spec fn spec_ppoll_timeout(timeout_ts: UserPtr<Timespec>) -> Result<Timeout, Errno> {
    match timeout_ts {
        UserPtr::Null => Ok(Timeout::Infinite),
        UserPtr::Unmapped => Err(Errno::BadAddress),
        UserPtr::Mapped(ts) => {
            if !ts.spec_is_valid() {
                Err(Errno::InvalidArgument)
            } else if ts.spec_total_nanos() == 0 {
                Ok(Timeout::Zero)
            } else {
                Ok(Timeout::After(ts.spec_total_nanos() as u128))
            }
        },
    }
}

/// The timeout of `ppoll`, given as a pointer to a time.
pub fn ppoll_timeout(timeout_ts: &UserPtr<Timespec>) -> (r: Result<Timeout, Errno>)
    ensures
        r == spec_ppoll_timeout(*timeout_ts),
{
    if timeout_ts.is_null() {
        return Ok(Timeout::Infinite);
    }
    let ts = match timeout_ts.get_as_ref() {
        Ok(ts) => *ts,
        Err(errno) => {
            return Err(errno);
        },
    };
    if !ts.is_valid() {
        return Err(Errno::InvalidArgument);
    }
    let nanos = ts.total_nanos();
    if nanos == 0 {
        Ok(Timeout::Zero)
    } else {
        Ok(Timeout::After(nanos as u128))
    }
}

/// The timeout of `select`, given as an optional time in seconds and
/// microseconds: no time is infinite, and so is a time below zero; a time of
/// zero is one pass.
pub open spec fn spec_select_timeout(timeout: Option<Timeval>) -> Timeout {
    match timeout {
        None => Timeout::Infinite,
        Some(tv) => {
            if tv.spec_total_micros() < 0 {
                Timeout::Infinite
            } else if tv.spec_total_micros() == 0 {
                Timeout::Zero
            } else {
                Timeout::After((tv.spec_total_micros() * NANOS_PER_MICRO) as u128)
            }
        },
    }
}

/// The timeout of `select`, given as an optional time in seconds and
/// microseconds.
#[verifier::when_used_as_spec(spec_select_timeout)]
pub fn select_timeout(timeout: Option<Timeval>) -> (r: Timeout)
    ensures
        r == spec_select_timeout(timeout),
{
    match timeout {
        None => Timeout::Infinite,
        Some(tv) => {
            let micros = tv.total_micros();
            if micros < 0 {
                Timeout::Infinite
            } else if micros == 0 {
                Timeout::Zero
            } else {
                Timeout::After((micros as u128) * 1_000)
            }
        },
    }
}

impl Timeout {
    /// Whether arming this timeout takes a reading of the clock.
    pub open spec fn spec_needs_clock(self) -> bool {
        self is After
    }

    /// The wait that this timeout starts when the clock reads `now`.
    pub open spec fn spec_arm(self, now: u128) -> Wait {
        match self {
            Timeout::Infinite => Wait::Forever,
            Timeout::Zero => Wait::Once,
            Timeout::After(span) => Wait::Until { start: now, span },
        }
    }

    /// Whether arming this timeout takes a reading of the clock. Where it
    /// does not, `arm` ignores the reading it is given.
    #[verifier::when_used_as_spec(spec_needs_clock)]
    pub fn needs_clock(self) -> (needed: bool)
        ensures
            needed == self.spec_needs_clock(),
            !needed ==> forall|a: u128, b: u128| self.spec_arm(a) == self.spec_arm(b),
    {
        match self {
            Timeout::After(_) => true,
            _ => false,
        }
    }

    /// The wait that this timeout starts when the clock reads `now`.
    #[verifier::when_used_as_spec(spec_arm)]
    pub fn arm(self, now: u128) -> (wait: Wait)
        ensures
            wait == self.spec_arm(now),
    {
        match self {
            Timeout::Infinite => Wait::Forever,
            Timeout::Zero => Wait::Once,
            Timeout::After(span) => Wait::Until { start: now, span },
        }
    }
}

impl Wait {
    /// The clock reading at which the wait ends, where it has one.
    pub open spec fn deadline(self) -> Option<int> {
        match self {
            Wait::Until { start, span } => Some(start + span),
            _ => None,
        }
    }

    /// Whether the wait is over when the clock reads `now`.
    pub open spec fn expired(self, now: int) -> bool {
        match self {
            Wait::Once => true,
            Wait::Until { start, span } => now >= start + span,
            Wait::Forever => false,
        }
    }

    /// The step after a pass that found `ready` entries ready.
    pub open spec fn spec_after_pass(self, ready: usize) -> Step {
        if ready > 0 {
            Step::Return(ready)
        } else {
            match self {
                Wait::Once => Step::Return(0),
                Wait::Until { .. } => Step::CheckClock,
                Wait::Forever => Step::Yield,
            }
        }
    }

    /// The step after a pass that found nothing ready and a look at the
    /// clock, which reads `now`.
    pub open spec fn spec_after_clock(self, now: u128) -> Step {
        if self.expired(now as int) {
            Step::Return(0)
        } else {
            Step::Yield
        }
    }

    /// Decides what follows a pass that found `ready` entries ready.
    ///
    /// A pass that found something ends the call with its count. After a pass
    /// that found nothing, a call of one pass returns 0, a call with a
    /// deadline looks at the clock, and a call without one yields.
    #[verifier::when_used_as_spec(spec_after_pass)]
    pub fn after_pass(self, ready: usize) -> (step: Step)
        ensures
            step == self.spec_after_pass(ready),
    {
        if ready > 0 {
            Step::Return(ready)
        } else {
            match self {
                Wait::Once => Step::Return(0),
                Wait::Until { .. } => Step::CheckClock,
                Wait::Forever => Step::Yield,
            }
        }
    }

    /// Decides what follows a pass that found nothing ready, given the clock
    /// reading `now`: the call returns 0 once the deadline is reached, and
    /// yields before that.
    #[verifier::when_used_as_spec(spec_after_clock)]
    pub fn after_clock(self, now: u128) -> (step: Step)
        ensures
            step == self.spec_after_clock(now),
    {
        let over = match self {
            Wait::Once => true,
            Wait::Until { start, span } => now >= start && now - start >= span,
            Wait::Forever => false,
        };
        if over {
            Step::Return(0)
        } else {
            Step::Yield
        }
    }
}

/// The course of a call that follows the steps: armed as `wait`, it runs one
/// pass after the other, of which pass `i` finds `counts[i]` entries ready,
/// and asks `after_pass` after each; where that says so it looks at the clock,
/// of which look `i` reads `readings[i]`, and asks `after_clock`; and it yields
/// before the next pass where neither ends the call.
///
/// The course is the count that the call returns, the number of passes that
/// it has run by then, and the number of times that it has yielded; it is
/// `None` where the passes or the readings run out before the call returns.
pub open spec fn course(
    wait: Wait,
    counts: Seq<usize>,
    readings: Seq<u128>,
) -> Option<(usize, nat, nat)>
    decreases counts.len(),
{
    if counts.len() == 0 {
        None
    } else {
        match wait.spec_after_pass(counts[0]) {
            Step::Return(count) => Some((count, 1nat, 0nat)),
            Step::Yield => later(course(wait, counts.skip(1), readings)),
            Step::CheckClock => {
                if readings.len() == 0 {
                    None
                } else {
                    match wait.spec_after_clock(readings[0]) {
                        Step::Return(count) => Some((count, 1nat, 0nat)),
                        _ => later(course(wait, counts.skip(1), readings.skip(1))),
                    }
                }
            },
        }
    }
}

/// The course of a call that yields once and then takes the course `rest`.
pub open spec fn later(rest: Option<(usize, nat, nat)>) -> Option<(usize, nat, nat)> {
    match rest {
        Some((count, passes, yields)) => Some((count, passes + 1, yields + 1)),
        None => None,
    }
}

/// A timeout of zero is one pass: the call returns the count of its first
/// pass, be it zero, after exactly that one pass and without a yield. This
/// holds for the zero of each of the three calls, whenever the call is armed
/// and whatever the passes would find.
pub proof fn lemma_zero_timeout_is_one_pass(now: u128, counts: Seq<usize>, readings: Seq<u128>)
    requires
        counts.len() > 0,
    ensures
        spec_poll_timeout(0) == Timeout::Zero,
        spec_ppoll_timeout(UserPtr::Mapped(Timespec { tv_sec: 0, tv_nsec: 0 })) == Ok::<
            Timeout,
            Errno,
        >(Timeout::Zero),
        spec_select_timeout(Some(Timeval { tv_sec: 0, tv_usec: 0 })) == Timeout::Zero,
        Timeout::Zero.spec_arm(now).spec_after_pass(counts[0]) == Step::Return(counts[0]),
        course(Timeout::Zero.spec_arm(now), counts, readings) == Some((counts[0], 1nat, 0nat)),
{
}

/// A call with a timeout keeps its deadline: armed at `start` with a timeout
/// of `span` nanoseconds, it looks at the clock after every pass that finds
/// nothing, yields while the clock reads less than `start + span`, and returns
/// 0 at the first reading that is not less.
pub proof fn lemma_deadline_is_kept(start: u128, span: u128, now: u128)
    ensures
        Timeout::After(span).spec_arm(start).deadline() == Some(start + span),
        Timeout::After(span).spec_arm(start).spec_after_pass(0) == Step::CheckClock,
        now < start + span ==> Timeout::After(span).spec_arm(start).spec_after_clock(now)
            == Step::Yield,
        now >= start + span ==> Timeout::After(span).spec_arm(start).spec_after_clock(now)
            == Step::Return(0),
{
}

/// A call with a timeout whose descriptors never become ready returns 0 no
/// earlier than its deadline and at its first look at the clock from the
/// deadline on: if the first `early` readings are less than `start + span` and
/// the next one is not, the call returns 0 after `early + 1` passes and `early`
/// yields, one yield after each early reading.
pub proof fn lemma_timeout_returns_at_the_deadline(
    start: u128,
    span: u128,
    counts: Seq<usize>,
    readings: Seq<u128>,
    early: nat,
)
    requires
        early < counts.len(),
        early < readings.len(),
        forall|i: int| 0 <= i <= early ==> counts[i] == 0,
        forall|i: int| 0 <= i < early ==> readings[i] < start + span,
        readings[early as int] >= start + span,
    ensures
        course(Timeout::After(span).spec_arm(start), counts, readings) == Some(
            (0usize, early + 1, early),
        ),
    decreases early,
{
    if early > 0 {
        lemma_timeout_returns_at_the_deadline(
            start,
            span,
            counts.skip(1),
            readings.skip(1),
            (early - 1) as nat,
        );
    }
}

/// A call without a timeout never returns empty-handed: after a pass that
/// finds nothing it yields, it returns only the count of a pass that found
/// something, and as long as the passes find nothing it does not return.
pub proof fn lemma_infinite_timeout_only_returns_ready(
    now: u128,
    ready: usize,
    counts: Seq<usize>,
    readings: Seq<u128>,
)
    requires
        forall|i: int| 0 <= i < counts.len() ==> counts[i] == 0,
    ensures
        Timeout::Infinite.spec_arm(now).spec_after_pass(0) == Step::Yield,
        ready > 0 ==> Timeout::Infinite.spec_arm(now).spec_after_pass(ready) == Step::Return(ready),
        course(Timeout::Infinite.spec_arm(now), counts, readings) is None,
    decreases counts.len(),
{
    if counts.len() > 0 {
        lemma_infinite_timeout_only_returns_ready(now, ready, counts.skip(1), readings);
    }
}

/// A call returns the count of its first pass that finds something: if the
/// passes before pass `first` find nothing, the clock stays short of every
/// deadline, and pass `first` finds `counts[first]` entries, the call returns
/// that count after `first + 1` passes.
pub proof fn lemma_first_ready_pass_ends_the_call(
    wait: Wait,
    counts: Seq<usize>,
    readings: Seq<u128>,
    first: nat,
)
    requires
        !(wait is Once),
        first < counts.len(),
        counts[first as int] > 0,
        forall|i: int| 0 <= i < first ==> counts[i] == 0,
        wait is Until ==> first <= readings.len(),
        forall|i: int| 0 <= i < first && i < readings.len() ==> !wait.expired(readings[i] as int),
    ensures
        course(wait, counts, readings) == Some((counts[first as int], first + 1, first)),
    decreases first,
{
    if first > 0 {
        if wait is Until {
            lemma_first_ready_pass_ends_the_call(
                wait,
                counts.skip(1),
                readings.skip(1),
                (first - 1) as nat,
            );
        } else {
            lemma_first_ready_pass_ends_the_call(wait, counts.skip(1), readings, (first - 1) as nat);
        }
    }
}

} // verus!
