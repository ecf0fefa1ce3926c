//! The delayed-stop timer, kept as a state machine that its driver polls, and
//! the remaining time until a wall-clock instant in a named time zone.
use vstd::prelude::*;

verus! {

/// Longest sleep between two polls of a pending timer, in milliseconds.
pub const POLL_SLICE_MS: u64 = 100;

/// Layout of a local stop time, as in `2024-01-15T14:30`.
pub const LOCAL_DATETIME_FORMAT: &'static str = "%Y-%m-%dT%H:%M";

/// What the driver of a timer does after a poll.
#[derive(Debug, Clone, Copy, PartialEq, Eq, Structural)]
pub enum TimerStep {
    /// The deadline is ahead: sleep this many milliseconds, then poll again.
    Sleep(u64),
    /// The deadline has passed: run the action now, once.
    Fire,
    /// The timer was cancelled or has fired: stop polling, run nothing.
    Finished,
}

/// Abstract state of a timer.
pub struct TimerState {
    pub deadline_ms: nat,
    pub cancelled: bool,
    pub fired: bool,
}

/// Deadline of a timer armed at `now_ms` for `seconds`, held at the
/// largest `u64` where the sum would not fit.
pub open spec fn deadline_of(seconds: u64, now_ms: u64) -> nat {
    let t = now_ms as int + seconds as int * 1000;
    if t > u64::MAX as int {
        u64::MAX as nat
    } else {
        t as nat
    }
}

/// State of a timer after `cancel`.
pub open spec fn cancelled_state(s: TimerState) -> TimerState {
    TimerState { cancelled: true, ..s }
}

/// One poll at time `now_ms`: the next state and the step to take.
pub open spec fn poll_step(s: TimerState, now_ms: u64) -> (TimerState, TimerStep) {
    if s.cancelled || s.fired {
        (s, TimerStep::Finished)
    } else if (now_ms as nat) < s.deadline_ms {
        let left = s.deadline_ms - now_ms;
        (s, TimerStep::Sleep(if left < POLL_SLICE_MS { left as u64 } else { POLL_SLICE_MS }))
    } else {
        (TimerState { fired: true, ..s }, TimerStep::Fire)
    }
}

/// Number of times the action runs over a run of polls at the given times.
pub open spec fn firings(s: TimerState, times: Seq<u64>) -> nat
    decreases times.len(),
{
    if times.len() == 0 {
        0
    } else {
        let (next, step) = poll_step(s, times[0]);
        (if step == TimerStep::Fire { 1nat } else { 0nat }) + firings(next, times.drop_first())
    }
}

/// A cancellable one-shot timer. The driver polls it; the timer decides.
pub struct Scheduler {
    deadline_ms: u64,
    cancelled: bool,
    fired: bool,
}

impl View for Scheduler {
    type V = TimerState;

    closed spec fn view(&self) -> TimerState {
        TimerState {
            deadline_ms: self.deadline_ms as nat,
            cancelled: self.cancelled,
            fired: self.fired,
        }
    }
}

impl Scheduler {
    /// A timer armed at `now_ms` that fires `seconds` later.
    pub fn new(seconds: u64, now_ms: u64) -> (r: Scheduler)
        ensures
            r@ == (TimerState { deadline_ms: deadline_of(seconds, now_ms), cancelled: false, fired: false }),
    {
        let t: u128 = now_ms as u128 + seconds as u128 * 1000;
        let deadline_ms: u64 = if t > u64::MAX as u128 {
            u64::MAX
        } else {
            t as u64
        };
        Scheduler { deadline_ms, cancelled: false, fired: false }
    }

    /// Cancels the timer: from now on no poll fires it.
    pub fn cancel(&mut self)
        ensures
            final(self)@ == cancelled_state(old(self)@),
    {
        self.cancelled = true;
    }

    /// Whether the timer was cancelled.
    pub fn is_cancelled(&self) -> (r: bool)
        ensures
            r == self@.cancelled,
    {
        self.cancelled
    }

    /// Whether the timer has fired.
    pub fn has_fired(&self) -> (r: bool)
        ensures
            r == self@.fired,
    {
        self.fired
    }

    /// Polls the timer at time `now_ms`.
    pub fn poll(&mut self, now_ms: u64) -> (r: TimerStep)
        ensures
            (final(self)@, r) == poll_step(old(self)@, now_ms),
    {
        if self.cancelled || self.fired {
            TimerStep::Finished
        } else if now_ms < self.deadline_ms {
            let left = self.deadline_ms - now_ms;
            TimerStep::Sleep(if left < POLL_SLICE_MS { left } else { POLL_SLICE_MS })
        } else {
            self.fired = true;
            TimerStep::Fire
        }
    }
}

/// A cancelled timer never runs its action, whenever it is polled.
pub proof fn lemma_cancelled_never_fires(s: TimerState, times: Seq<u64>)
    ensures
        firings(cancelled_state(s), times) == 0,
    decreases times.len(),
{
    lemma_finished_never_fires(cancelled_state(s), times);
}

/// A timer that was cancelled or has fired runs its action no more.
pub proof fn lemma_finished_never_fires(s: TimerState, times: Seq<u64>)
    requires
        s.cancelled || s.fired,
    ensures
        firings(s, times) == 0,
    decreases times.len(),
{
    if times.len() > 0 {
        lemma_finished_never_fires(s, times.drop_first());
    }
}

/// A timer never fires before its deadline.
pub proof fn lemma_never_early(s: TimerState, times: Seq<u64>)
    requires
        forall|i: int| 0 <= i < times.len() ==> (times[i] as nat) < s.deadline_ms,
    ensures
        firings(s, times) == 0,
    decreases times.len(),
{
    if times.len() > 0 {
        let rest = times.drop_first();
        assert forall|i: int| 0 <= i < rest.len() implies (rest[i] as nat) < s.deadline_ms by {
            assert(rest[i] == times[i + 1]);
        }
        lemma_never_early(s, rest);
    }
}

/// A pending timer, not cancelled, that is polled at least once at or after
/// its deadline runs its action exactly once.
pub proof fn lemma_fires_exactly_once(s: TimerState, times: Seq<u64>)
    requires
        !s.cancelled,
        !s.fired,
        exists|i: int| 0 <= i < times.len() && (times[i] as nat) >= s.deadline_ms,
    ensures
        firings(s, times) == 1,
    decreases times.len(),
{
    let (next, step) = poll_step(s, times[0]);
    let rest = times.drop_first();
    if (times[0] as nat) >= s.deadline_ms {
        assert(step == TimerStep::Fire);
        lemma_finished_never_fires(next, rest);
    } else {
        assert(next == s);
        let i = choose|i: int| 0 <= i < times.len() && (times[i] as nat) >= s.deadline_ms;
        assert(i > 0);
        assert(rest[i - 1] == times[i]);
        lemma_fires_exactly_once(s, rest);
    }
}

/// Whole seconds from `now` until `target`, or zero where `target` is not ahead.
pub open spec fn seconds_until(target: int, now: int) -> int {
    if target > now {
        target - now
    } else {
        0
    }
}

/// The Unix time, in seconds, of the local date-time `datetime` laid out as
/// `format` in the time zone named `zone`, where it names exactly one instant.
pub uninterp spec fn zoned_instant(datetime: Seq<char>, format: Seq<char>, zone: Seq<char>) -> Option<int>;

/// Relies on chrono-tz's `Tz::from_str` (the zone by its IANA name), chrono's
/// `NaiveDateTime::parse_from_str`, `TimeZone::from_local_datetime` with
/// `MappedLocalTime::single` (a local time that is skipped or repeated in the
/// zone gives none) and `DateTime::timestamp`: the result depends on the
/// three strings alone.
#[verifier::external_body]
fn instant_in_zone(datetime: &str, format: &str, zone: &str) -> (r: Option<i64>)
    ensures
        match r {
            Some(t) => zoned_instant(datetime@, format@, zone@) == Some(t as int),
            None => zoned_instant(datetime@, format@, zone@) is None,
        },
{
    let tz: chrono_tz::Tz = zone.parse().ok()?;
    let naive = chrono::NaiveDateTime::parse_from_str(datetime, format).ok()?;
    chrono::TimeZone::from_local_datetime(&tz, &naive).single().map(|d| d.timestamp())
}

/// Relies on chrono's `Utc::now` and `DateTime::timestamp`: the current Unix
/// time in seconds, about which nothing else is known.
#[verifier::external_body]
fn unix_now() -> (r: i64) {
    chrono::Utc::now().timestamp()
}

/// Whole seconds from `now` until `target`, clamped at zero.
pub fn seconds_between(target: i64, now: i64) -> (r: u64)
    ensures
        r as int == seconds_until(target as int, now as int),
{
    if target > now {
        (target as i128 - now as i128) as u64
    } else {
        0
    }
}

impl Scheduler {
    /// Whole seconds until the local date-time `datetime_str` (laid out as
    /// [`LOCAL_DATETIME_FORMAT`]) in the zone named `timezone_str`; zero where
    /// it is already past, `None` where the two do not name one instant.
    pub fn calculate_seconds_until(datetime_str: &str, timezone_str: &str) -> (r: Option<u64>)
        ensures
            r is None <==> zoned_instant(datetime_str@, LOCAL_DATETIME_FORMAT@, timezone_str@) is None,
            r matches Some(v) ==> exists|now: i64|
                #![trigger seconds_until(zoned_instant(datetime_str@, LOCAL_DATETIME_FORMAT@, timezone_str@)->0, now as int)]
                v as int == seconds_until(
                    zoned_instant(datetime_str@, LOCAL_DATETIME_FORMAT@, timezone_str@)->0,
                    now as int,
                ),
    {
        match instant_in_zone(datetime_str, LOCAL_DATETIME_FORMAT, timezone_str) {
            None => None,
            Some(target) => {
                let now = unix_now();
                let s = seconds_between(target, now);
                assert(zoned_instant(datetime_str@, LOCAL_DATETIME_FORMAT@, timezone_str@) == Some(target as int));
                assert(s as int == seconds_until(
                    zoned_instant(datetime_str@, LOCAL_DATETIME_FORMAT@, timezone_str@)->0,
                    now as int,
                ));
                Some(s)
            },
        }
    }
}

} // verus!
