//! The timer's states and the transitions between them.
//!
//! Instants are milliseconds since the epoch, read on the local wall clock;
//! durations are milliseconds. Every transition has a form that takes the
//! current instant (`*_at`), which is where the rules live, and a form that
//! reads the clock first.
use vstd::prelude::*;

use crate::dispatcher::PomobarDispatcher;

verus! {

/// Length of a focus session: 25 minutes.
pub const WORK_MS: i64 = 1_500_000;

/// Length of a short break: 5 minutes.
pub const SHORT_BREAK_MS: i64 = 300_000;

/// Length of a long break: 15 minutes.
pub const LONG_BREAK_MS: i64 = 900_000;

/// Every how many completed sessions the break is a long one.
pub const LONG_BREAK_EVERY: u32 = 4;

/// A millisecond count as a remaining time holds it: never below zero,
/// never above what an `i64` holds.
pub open spec fn clamp_remaining(x: int) -> int {
    if x < 0 {
        0
    } else if x > i64::MAX {
        i64::MAX as int
    } else {
        x
    }
}

/// An instant as an `i64` holds it.
pub open spec fn saturate(x: int) -> int {
    if x < i64::MIN {
        i64::MIN as int
    } else if x > i64::MAX {
        i64::MAX as int
    } else {
        x
    }
}

/// Time left, at `now`, of a session of length `duration` begun at `started_at`.
pub open spec fn remaining_spec(duration: int, started_at: int, now: int) -> int {
    clamp_remaining(duration - (now - started_at))
}

/// The start instant that, at `now`, leaves exactly `remaining` of a work session.
pub open spec fn resumed_start_spec(remaining: int, now: int) -> int {
    saturate(now - (WORK_MS - remaining))
}

/// Whether the session that brings the count of completed sessions to
/// `new_cycles` is followed by a long break.
pub open spec fn is_long_break(new_cycles: int) -> bool {
    new_cycles % (LONG_BREAK_EVERY as int) == 0
}

/// Time left, at `now`, of a session of length `duration` begun at `started_at`.
pub fn remaining_between(duration: i64, started_at: i64, now: i64) -> (r: i64)
    ensures
        r as int == remaining_spec(duration as int, started_at as int, now as int),
        r >= 0,
{
    let x: i128 = duration as i128 - (now as i128 - started_at as i128);
    if x < 0 {
        0
    } else if x > i64::MAX as i128 {
        i64::MAX
    } else {
        x as i64
    }
}

/// Relies on chrono's `Local::now`, `DateTime::naive_local` and
/// `NaiveDateTime::and_utc().timestamp_millis()`: the local wall-clock time,
/// as milliseconds since the epoch. Nothing is promised of its value.
#[verifier::external_body]
pub(crate) fn local_now_millis() -> (r: i64) {
    chrono::Local::now().naive_local().and_utc().timestamp_millis()
}

/// A state with a fixed nominal length.
pub trait TimedState {
    spec fn duration_spec(&self) -> int;

    fn duration(&self) -> (r: i64)
        ensures
            r as int == self.duration_spec(),
            r > 0,
    ;
}

/// No session under way.
pub struct Idle;

/// A focus session under way since `started_at`, after `cycles` completed ones.
pub struct Work {
    pub started_at: i64,
    pub cycles: u32,
}

impl TimedState for Work {
    open spec fn duration_spec(&self) -> int {
        WORK_MS as int
    }

    fn duration(&self) -> (r: i64) {
        WORK_MS
    }
}

/// A suspended focus session with `remaining` milliseconds left.
pub struct Paused {
    pub remaining: i64,
    pub cycles: u32,
}

impl Paused {
    /// A stored remaining time is never negative.
    pub open spec fn wf(&self) -> bool {
        self.remaining >= 0
    }
}

/// A short break under way since `started_at`.
pub struct ShortBreak {
    pub started_at: i64,
    pub cycles: u32,
}

impl TimedState for ShortBreak {
    open spec fn duration_spec(&self) -> int {
        SHORT_BREAK_MS as int
    }

    fn duration(&self) -> (r: i64) {
        SHORT_BREAK_MS
    }
}

/// A long break under way since `started_at`.
pub struct LongBreak {
    pub started_at: i64,
    pub cycles: u32,
}

impl TimedState for LongBreak {
    open spec fn duration_spec(&self) -> int {
        LONG_BREAK_MS as int
    }

    fn duration(&self) -> (r: i64) {
        LONG_BREAK_MS
    }
}

/// The timer in state `S`; which transitions exist depends on `S`.
pub struct Pomobar<S> {
    pub state: S,
}

impl Pomobar<Idle> {
    /// A fresh timer with no session under way.
    pub fn new() -> (r: Self)
        ensures
            r == (Pomobar { state: Idle }),
    {
        Pomobar { state: Idle }
    }

    /// Begins a focus session at `now`, with no completed sessions.
    pub fn start_at(self, now: i64) -> (r: Pomobar<Work>)
        ensures
            r.state.started_at == now,
            r.state.cycles == 0,
    {
        Pomobar { state: Work { started_at: now, cycles: 0 } }
    }

    /// Begins a focus session now.
    pub fn start(self) -> (r: Pomobar<Work>)
        ensures
            r.state.cycles == 0,
    {
        let now = local_now_millis();
        self.start_at(now)
    }
}

impl Default for Pomobar<Idle> {
    fn default() -> (r: Self)
        ensures
            r == (Pomobar { state: Idle }),
    {
        Self::new()
    }
}

impl Pomobar<Work> {
    /// Suspends the session at `now`, keeping the time it had left.
    pub fn pause_at(self, now: i64) -> (r: Pomobar<Paused>)
        ensures
            r.state.remaining as int == remaining_spec(
                WORK_MS as int,
                self.state.started_at as int,
                now as int,
            ),
            r.state.remaining == remaining_spec(
                WORK_MS as int,
                self.state.started_at as int,
                now as int,
            ) as i64,
            r.state.cycles == self.state.cycles,
            r.state.wf(),
    {
        let remaining = remaining_between(self.state.duration(), self.state.started_at, now);
        Pomobar { state: Paused { remaining, cycles: self.state.cycles } }
    }

    /// Suspends the session now, keeping the time it had left.
    pub fn pause(self) -> (r: Pomobar<Paused>)
        ensures
            r.state.cycles == self.state.cycles,
            r.state.wf(),
    {
        let now = local_now_millis();
        self.pause_at(now)
    }

    /// Completes the session at `now`: one more completed session, and a
    /// break that is long when that count is a multiple of four.
    pub fn finish_at(self, now: i64) -> (r: PomobarDispatcher)
        requires
            self.state.cycles < u32::MAX,
        ensures
            r == PomobarDispatcher::after_work(self.state.cycles as int + 1, now),
    {
        let new_cycles = self.state.cycles + 1;
        if new_cycles % LONG_BREAK_EVERY == 0 {
            PomobarDispatcher::LongBreak(
                Pomobar { state: LongBreak { started_at: now, cycles: new_cycles } },
            )
        } else {
            PomobarDispatcher::ShortBreak(
                Pomobar { state: ShortBreak { started_at: now, cycles: new_cycles } },
            )
        }
    }

    /// Completes the session now.
    pub fn finish(self) -> (r: PomobarDispatcher)
        requires
            self.state.cycles < u32::MAX,
        ensures
            exists|now: i64| r == #[trigger] PomobarDispatcher::after_work(self.state.cycles as int + 1, now),
    {
        let now = local_now_millis();
        self.finish_at(now)
    }
}

impl Pomobar<Paused> {
    /// Resumes the session at `now`, with a start instant chosen so that the
    /// deadline is the one the session had when it was paused.
    pub fn resume_at(self, now: i64) -> (r: Pomobar<Work>)
        ensures
            r.state.started_at as int == resumed_start_spec(self.state.remaining as int, now as int),
            r.state.started_at == resumed_start_spec(self.state.remaining as int, now as int) as i64,
            r.state.cycles == self.state.cycles,
    {
        let s: i128 = now as i128 - (WORK_MS as i128 - self.state.remaining as i128);
        let started_at: i64 = if s < i64::MIN as i128 {
            i64::MIN
        } else if s > i64::MAX as i128 {
            i64::MAX
        } else {
            s as i64
        };
        Pomobar { state: Work { started_at, cycles: self.state.cycles } }
    }

    /// Resumes the session now.
    pub fn resume(self) -> (r: Pomobar<Work>)
        ensures
            r.state.cycles == self.state.cycles,
    {
        let now = local_now_millis();
        self.resume_at(now)
    }
}

impl Pomobar<ShortBreak> {
    /// Ends the break at `now` with a new focus session.
    pub fn finish_at(self, now: i64) -> (r: Pomobar<Work>)
        ensures
            r.state.started_at == now,
            r.state.cycles == self.state.cycles,
    {
        Pomobar { state: Work { started_at: now, cycles: self.state.cycles } }
    }

    /// Ends the break now with a new focus session.
    pub fn finish(self) -> (r: Pomobar<Work>)
        ensures
            r.state.cycles == self.state.cycles,
    {
        let now = local_now_millis();
        self.finish_at(now)
    }
}

impl Pomobar<LongBreak> {
    /// Ends the break at `now` with a new focus session.
    pub fn finish_at(self, now: i64) -> (r: Pomobar<Work>)
        ensures
            r.state.started_at == now,
            r.state.cycles == self.state.cycles,
    {
        Pomobar { state: Work { started_at: now, cycles: self.state.cycles } }
    }

    /// Ends the break now with a new focus session.
    pub fn finish(self) -> (r: Pomobar<Work>)
        ensures
            r.state.cycles == self.state.cycles,
    {
        let now = local_now_millis();
        self.finish_at(now)
    }
}

} // verus!
