//! One value for whichever state the timer is in, and the reducer that
//! applies commands and clock ticks to it.
use vstd::prelude::*;

use crate::timer::{
    is_long_break, local_now_millis, remaining_between, remaining_spec, resumed_start_spec, Idle,
    LongBreak, Paused, Pomobar, ShortBreak, TimedState, Work, LONG_BREAK_MS, SHORT_BREAK_MS,
    WORK_MS,
};

verus! {

/// The timer in any of its states.
pub enum PomobarDispatcher {
    Idle(Pomobar<Idle>),
    Work(Pomobar<Work>),
    Paused(Pomobar<Paused>),
    ShortBreak(Pomobar<ShortBreak>),
    LongBreak(Pomobar<LongBreak>),
}

impl PomobarDispatcher {
    /// The break that follows the session which makes `new_cycles` completed
    /// ones, begun at `now`.
    pub open spec fn after_work(new_cycles: int, now: i64) -> PomobarDispatcher {
        if is_long_break(new_cycles) {
            PomobarDispatcher::LongBreak(
                Pomobar { state: LongBreak { started_at: now, cycles: new_cycles as u32 } },
            )
        } else {
            PomobarDispatcher::ShortBreak(
                Pomobar { state: ShortBreak { started_at: now, cycles: new_cycles as u32 } },
            )
        }
    }
}

/// What the reducer is handed: a command or a clock tick.
pub enum Event {
    /// Start, pause or resume a focus session.
    Toggle,
    /// Drop whatever is under way and go back to idle.
    Reset,
    /// Ask for the current state.
    Status,
    /// One second has passed.
    Tick,
}

/// A desktop notice that a step asks to be shown.
pub enum Notice {
    Focus,
    Pause,
    Resume,
    Break,
    BreakOver,
    LongBreakOver,
    Reset,
}

/// What the caller of a step has to do besides keeping the new state.
pub enum Effect {
    /// Nothing.
    Quiet,
    /// Show a notice.
    Notify(Notice),
    /// Send the current state to whoever asked for it.
    Reply,
}

impl Notice {
    pub open spec fn text(self) -> Seq<char> {
        match self {
            Notice::Focus => "Time to focus!"@,
            Notice::Pause => "Pomodoro paused."@,
            Notice::Resume => "Resuming pomodoro."@,
            Notice::Break => "Time for a break!"@,
            Notice::BreakOver => "Break is over. Time to focus!"@,
            Notice::LongBreakOver => "Long break is over. Time to get back to it!"@,
            Notice::Reset => "Reset timer."@,
        }
    }

    /// The words of the notice.
    pub fn message(&self) -> (r: &'static str)
        ensures
            r@ == self.text(),
    {
        match self {
            Notice::Focus => "Time to focus!",
            Notice::Pause => "Pomodoro paused.",
            Notice::Resume => "Resuming pomodoro.",
            Notice::Break => "Time for a break!",
            Notice::BreakOver => "Break is over. Time to focus!",
            Notice::LongBreakOver => "Long break is over. Time to get back to it!",
            Notice::Reset => "Reset timer.",
        }
    }
}

impl PomobarDispatcher {
    /// A paused session never holds a negative remaining time.
    pub open spec fn wf(&self) -> bool {
        self is Paused ==> self->Paused_0.state.wf()
    }

    /// The idle timer.
    pub open spec fn idle() -> PomobarDispatcher {
        PomobarDispatcher::Idle(Pomobar { state: Idle })
    }

    /// A focus session begun at `started_at` after `cycles` completed ones.
    pub open spec fn working(started_at: i64, cycles: u32) -> PomobarDispatcher {
        PomobarDispatcher::Work(Pomobar { state: Work { started_at, cycles } })
    }

    /// Time left at `now`; the full length of a focus session when idle.
    pub open spec fn remaining_spec_at(self, now: i64) -> int {
        match self {
            PomobarDispatcher::Idle(_) => WORK_MS as int,
            PomobarDispatcher::Work(p) => remaining_spec(
                WORK_MS as int,
                p.state.started_at as int,
                now as int,
            ),
            PomobarDispatcher::Paused(p) => p.state.remaining as int,
            PomobarDispatcher::ShortBreak(p) => remaining_spec(
                SHORT_BREAK_MS as int,
                p.state.started_at as int,
                now as int,
            ),
            PomobarDispatcher::LongBreak(p) => remaining_spec(
                LONG_BREAK_MS as int,
                p.state.started_at as int,
                now as int,
            ),
        }
    }

    pub open spec fn name_spec(self) -> Seq<char> {
        match self {
            PomobarDispatcher::Idle(_) => "idle"@,
            PomobarDispatcher::Work(_) => "work"@,
            PomobarDispatcher::Paused(_) => "paused"@,
            PomobarDispatcher::ShortBreak(_) => "short_break"@,
            PomobarDispatcher::LongBreak(_) => "long_break"@,
        }
    }

    /// Completed focus sessions; none when idle.
    pub open spec fn cycles_spec(self) -> u32 {
        match self {
            PomobarDispatcher::Idle(_) => 0,
            PomobarDispatcher::Work(p) => p.state.cycles,
            PomobarDispatcher::Paused(p) => p.state.cycles,
            PomobarDispatcher::ShortBreak(p) => p.state.cycles,
            PomobarDispatcher::LongBreak(p) => p.state.cycles,
        }
    }

    /// A toggle at `now`: idle starts, work pauses, a pause resumes, and a
    /// break must run its course.
    pub open spec fn toggled(self, now: i64) -> (PomobarDispatcher, Effect) {
        match self {
            PomobarDispatcher::Idle(_) => (
                PomobarDispatcher::working(now, 0),
                Effect::Notify(Notice::Focus),
            ),
            PomobarDispatcher::Work(p) => (
                PomobarDispatcher::Paused(
                    Pomobar {
                        state: Paused {
                            remaining: remaining_spec(
                                WORK_MS as int,
                                p.state.started_at as int,
                                now as int,
                            ) as i64,
                            cycles: p.state.cycles,
                        },
                    },
                ),
                Effect::Notify(Notice::Pause),
            ),
            PomobarDispatcher::Paused(p) => (
                PomobarDispatcher::working(
                    resumed_start_spec(p.state.remaining as int, now as int) as i64,
                    p.state.cycles,
                ),
                Effect::Notify(Notice::Resume),
            ),
            _ => (self, Effect::Quiet),
        }
    }

    /// A tick at `now`: a timed state whose time is up is finished; anything
    /// else stays as it is.
    pub open spec fn ticked(self, now: i64) -> (PomobarDispatcher, Effect) {
        if self.remaining_spec_at(now) == 0 {
            match self {
                PomobarDispatcher::Work(p) => (
                    PomobarDispatcher::after_work(p.state.cycles as int + 1, now),
                    Effect::Notify(Notice::Break),
                ),
                PomobarDispatcher::ShortBreak(p) => (
                    PomobarDispatcher::working(now, p.state.cycles),
                    Effect::Notify(Notice::BreakOver),
                ),
                PomobarDispatcher::LongBreak(p) => (
                    PomobarDispatcher::working(now, p.state.cycles),
                    Effect::Notify(Notice::LongBreakOver),
                ),
                _ => (self, Effect::Quiet),
            }
        } else {
            (self, Effect::Quiet)
        }
    }

    /// The state after `e` at `now`, and what else is to be done.
    pub open spec fn step(self, e: Event, now: i64) -> (PomobarDispatcher, Effect) {
        match e {
            Event::Toggle => self.toggled(now),
            Event::Reset => (PomobarDispatcher::idle(), Effect::Notify(Notice::Reset)),
            Event::Status => (self, Effect::Reply),
            Event::Tick => self.ticked(now),
        }
    }

    /// Whether a step on `e` keeps the count of completed sessions within a `u32`.
    pub open spec fn fits(self, e: Event) -> bool {
        (e is Tick && self is Work) ==> self->Work_0.state.cycles < u32::MAX
    }

    /// Time left at `now`; the full length of a focus session when idle.
    pub fn get_remaining_time_at(&self, now: i64) -> (r: i64)
        ensures
            r as int == self.remaining_spec_at(now),
            self.wf() ==> r >= 0,
    {
        match self {
            PomobarDispatcher::Idle(_) => WORK_MS,
            PomobarDispatcher::Work(p) => remaining_between(
                p.state.duration(),
                p.state.started_at,
                now,
            ),
            PomobarDispatcher::Paused(p) => p.state.remaining,
            PomobarDispatcher::ShortBreak(p) => remaining_between(
                p.state.duration(),
                p.state.started_at,
                now,
            ),
            PomobarDispatcher::LongBreak(p) => remaining_between(
                p.state.duration(),
                p.state.started_at,
                now,
            ),
        }
    }

    /// Time left now.
    pub fn get_remaining_time(&self) -> (r: i64)
        ensures
            exists|now: i64| r as int == #[trigger] self.remaining_spec_at(now),
            self.wf() ==> r >= 0,
    {
        let now = local_now_millis();
        self.get_remaining_time_at(now)
    }

    /// The state's name: `idle`, `work`, `paused`, `short_break` or `long_break`.
    pub fn get_state_name(&self) -> (r: &'static str)
        ensures
            r@ == self.name_spec(),
    {
        match self {
            PomobarDispatcher::Idle(_) => "idle",
            PomobarDispatcher::Work(_) => "work",
            PomobarDispatcher::Paused(_) => "paused",
            PomobarDispatcher::ShortBreak(_) => "short_break",
            PomobarDispatcher::LongBreak(_) => "long_break",
        }
    }

    /// Completed focus sessions; none when idle.
    pub fn get_cycles(&self) -> (r: u32)
        ensures
            r == self.cycles_spec(),
    {
        match self {
            PomobarDispatcher::Idle(_) => 0,
            PomobarDispatcher::Work(p) => p.state.cycles,
            PomobarDispatcher::Paused(p) => p.state.cycles,
            PomobarDispatcher::ShortBreak(p) => p.state.cycles,
            PomobarDispatcher::LongBreak(p) => p.state.cycles,
        }
    }

    /// Applies `e` at `now`.
    pub fn apply_at(self, e: Event, now: i64) -> (r: (PomobarDispatcher, Effect))
        requires
            self.fits(e),
        ensures
            r == self.step(e, now),
            self.wf() ==> r.0.wf(),
    {
        match e {
            Event::Toggle => match self {
                PomobarDispatcher::Idle(p) => (
                    PomobarDispatcher::Work(p.start_at(now)),
                    Effect::Notify(Notice::Focus),
                ),
                PomobarDispatcher::Work(p) => (
                    PomobarDispatcher::Paused(p.pause_at(now)),
                    Effect::Notify(Notice::Pause),
                ),
                PomobarDispatcher::Paused(p) => (
                    PomobarDispatcher::Work(p.resume_at(now)),
                    Effect::Notify(Notice::Resume),
                ),
                other => (other, Effect::Quiet),
            },
            Event::Reset => (
                PomobarDispatcher::Idle(Pomobar::new()),
                Effect::Notify(Notice::Reset),
            ),
            Event::Status => (self, Effect::Reply),
            Event::Tick => {
                if self.get_remaining_time_at(now) == 0 {
                    match self {
                        PomobarDispatcher::Work(p) => (p.finish_at(now), Effect::Notify(Notice::Break)),
                        PomobarDispatcher::ShortBreak(p) => (
                            PomobarDispatcher::Work(p.finish_at(now)),
                            Effect::Notify(Notice::BreakOver),
                        ),
                        PomobarDispatcher::LongBreak(p) => (
                            PomobarDispatcher::Work(p.finish_at(now)),
                            Effect::Notify(Notice::LongBreakOver),
                        ),
                        other => (other, Effect::Quiet),
                    }
                } else {
                    (self, Effect::Quiet)
                }
            },
        }
    }

    /// Applies `e` now.
    pub fn apply(self, e: Event) -> (r: (PomobarDispatcher, Effect))
        requires
            self.fits(e),
        ensures
            exists|now: i64| r == #[trigger] self.step(e, now),
            self.wf() ==> r.0.wf(),
    {
        let now = local_now_millis();
        self.apply_at(e, now)
    }
}

} // verus!
