//! What holds of every run of the timer, proved over the reducer's model.
use vstd::prelude::*;

use crate::command::{event_of, reset_word, status_word, toggle_word};
use crate::dispatcher::{Effect, Event, Notice, PomobarDispatcher};
use crate::timer::{remaining_spec, SHORT_BREAK_MS, WORK_MS};

verus! {

/// Pausing a focus session at `paused_at` and resuming it at `resumed_at`
/// leaves it exactly the time it had left when it was paused, as long as the
/// rebuilt start instant fits an `i64`.
pub proof fn law_pause_resume_keeps_deadline(
    started_at: i64,
    cycles: u32,
    paused_at: i64,
    resumed_at: i64,
)
    requires
        i64::MIN <= resumed_at - (WORK_MS - remaining_spec(
            WORK_MS as int,
            started_at as int,
            paused_at as int,
        )) <= i64::MAX,
    ensures
        ({
            let work = PomobarDispatcher::working(started_at, cycles);
            let paused = work.step(Event::Toggle, paused_at).0;
            let resumed = paused.step(Event::Toggle, resumed_at).0;
            &&& paused is Paused
            &&& resumed is Work
            &&& resumed.remaining_spec_at(resumed_at) == work.remaining_spec_at(paused_at)
            &&& resumed.cycles_spec() == cycles
        }),
{
}

/// The time left is never negative, in any well-formed state and at any instant.
pub proof fn law_remaining_never_negative(s: PomobarDispatcher, now: i64)
    requires
        s.wf(),
    ensures
        s.remaining_spec_at(now) >= 0,
{
}

/// Every step keeps a well-formed state well-formed.
pub proof fn law_step_keeps_wf(s: PomobarDispatcher, e: Event, now: i64)
    requires
        s.wf(),
    ensures
        s.step(e, now).0.wf(),
{
}

/// A toggle during a break changes nothing: breaks must run their course.
pub proof fn law_toggle_on_break_is_noop(s: PomobarDispatcher, now: i64)
    requires
        s is ShortBreak || s is LongBreak,
    ensures
        s.step(Event::Toggle, now) == (s, Effect::Quiet),
        s.step(Event::Toggle, now).0.cycles_spec() == s.cycles_spec(),
{
}

/// A focus session that ends brings the count of completed sessions to
/// `cycles + 1`, and is followed by a long break exactly when that count is a
/// multiple of four, by a short one otherwise.
pub proof fn law_every_fourth_break_is_long(started_at: i64, cycles: u32, now: i64)
    requires
        cycles < u32::MAX,
        remaining_spec(WORK_MS as int, started_at as int, now as int) == 0,
    ensures
        ({
            let next = PomobarDispatcher::working(started_at, cycles).step(Event::Tick, now).0;
            &&& next.cycles_spec() == cycles + 1
            &&& (next is LongBreak <==> (cycles + 1) % 4 == 0)
            &&& (next is ShortBreak <==> (cycles + 1) % 4 != 0)
        }),
{
}

/// The count of completed sessions moves in one way only: up by one when a
/// focus session ends. A reset, or a start from idle, sets it to zero, and
/// every other step carries it.
pub proof fn law_cycles_count_completed_sessions(s: PomobarDispatcher, e: Event, now: i64)
    requires
        s.fits(e),
    ensures
        ({
            let next = s.step(e, now).0;
            if e is Reset || s is Idle {
                next.cycles_spec() == 0
            } else if s is Work && !(next is Work) && !(next is Paused) {
                next.cycles_spec() == s.cycles_spec() + 1
            } else {
                next.cycles_spec() == s.cycles_spec()
            }
        }),
{
}

/// A reset from any state gives the idle timer with no completed sessions,
/// and asks for its notice.
pub proof fn law_reset_goes_idle(s: PomobarDispatcher, now: i64)
    ensures
        s.step(Event::Reset, now) == (PomobarDispatcher::idle(), Effect::Notify(Notice::Reset)),
        s.step(Event::Reset, now).0.cycles_spec() == 0,
{
}

/// A tick that comes when a focus session is already over, however late,
/// ends it once; another tick before the break is over leaves the break as
/// it is.
pub proof fn law_late_tick_finishes_once(started_at: i64, cycles: u32, now: i64, later: i64)
    requires
        cycles < u32::MAX,
        now - started_at >= WORK_MS,
        now <= later < now + SHORT_BREAK_MS,
    ensures
        ({
            let work = PomobarDispatcher::working(started_at, cycles);
            let (next, effect) = work.step(Event::Tick, now);
            &&& next == PomobarDispatcher::after_work(cycles + 1, now)
            &&& effect == Effect::Notify(Notice::Break)
            &&& next.step(Event::Tick, later) == (next, Effect::Quiet)
        }),
{
    let next = PomobarDispatcher::after_work(cycles + 1, now);
    assert(next.remaining_spec_at(later) > 0);
}

/// Any token other than the two command words asks for the status, exactly
/// as the word `status` does: same state afterwards, same reply.
pub proof fn law_unknown_token_is_status(
    token: Seq<u8>,
    s: PomobarDispatcher,
    now: i64,
)
    requires
        token != toggle_word(),
        token != reset_word(),
    ensures
        event_of(token) == Event::Status,
        s.step(event_of(token), now) == s.step(event_of(status_word()), now),
{
    assert(status_word() != toggle_word()) by {
        assert(status_word()[0] != toggle_word()[0]);
    }
    assert(status_word() != reset_word()) by {
        assert(status_word().len() != reset_word().len());
    }
}

/// The state after the events of `evs`, each with its instant, from `s`.
pub open spec fn run(s: PomobarDispatcher, evs: Seq<(Event, i64)>) -> PomobarDispatcher
    decreases evs.len(),
{
    if evs.len() == 0 {
        s
    } else {
        run(s, evs.drop_last()).step(evs.last().0, evs.last().1).0
    }
}

/// Whether a step from `before` to `after` ends a focus session.
pub open spec fn ends_session(before: PomobarDispatcher, after: PomobarDispatcher) -> bool {
    before is Work && (after is ShortBreak || after is LongBreak)
}

/// How many focus sessions the events of `evs` end, from `s`, since the last reset.
pub open spec fn sessions_ended(s: PomobarDispatcher, evs: Seq<(Event, i64)>) -> nat
    decreases evs.len(),
{
    if evs.len() == 0 {
        0
    } else if evs.last().0 is Reset {
        0
    } else if ends_session(run(s, evs.drop_last()), run(s, evs)) {
        sessions_ended(s, evs.drop_last()) + 1
    } else {
        sessions_ended(s, evs.drop_last())
    }
}

/// Whether no step of `evs` from `s` would carry the count past a `u32`.
pub open spec fn trace_fits(s: PomobarDispatcher, evs: Seq<(Event, i64)>) -> bool {
    forall|i: int| 0 <= i < evs.len() ==> #[trigger] run(s, evs.take(i)).fits(evs[i].0)
}

/// From a fresh timer, after any events, the count of completed sessions is
/// the number of focus sessions ended since the last reset; and the step
/// that ends the k-th of them goes to a long break exactly when k is a
/// multiple of four, to a short one otherwise.
pub proof fn law_fourth_session_of_a_run_ends_in_long_break(evs: Seq<(Event, i64)>)
    requires
        trace_fits(PomobarDispatcher::idle(), evs),
    ensures
        run(PomobarDispatcher::idle(), evs).cycles_spec() == sessions_ended(
            PomobarDispatcher::idle(),
            evs,
        ),
        evs.len() > 0 && ends_session(
            run(PomobarDispatcher::idle(), evs.drop_last()),
            run(PomobarDispatcher::idle(), evs),
        ) ==> {
            let k = sessions_ended(PomobarDispatcher::idle(), evs);
            &&& (run(PomobarDispatcher::idle(), evs) is LongBreak <==> k % 4 == 0)
            &&& (run(PomobarDispatcher::idle(), evs) is ShortBreak <==> k % 4 != 0)
        },
    decreases evs.len(),
{
    let idle = PomobarDispatcher::idle();
    if evs.len() > 0 {
        let prefix = evs.drop_last();
        assert forall|i: int| 0 <= i < prefix.len() implies #[trigger] run(idle, prefix.take(i)).fits(
            prefix[i].0,
        ) by {
            assert(prefix.take(i) =~= evs.take(i));
            assert(run(idle, evs.take(i)).fits(evs[i].0));
        }
        law_fourth_session_of_a_run_ends_in_long_break(prefix);
        let n = (evs.len() - 1) as int;
        assert(evs.take(n) =~= prefix);
        assert(run(idle, evs.take(n)).fits(evs[n].0));
        law_cycles_count_completed_sessions(run(idle, prefix), evs.last().0, evs.last().1);
    }
}

} // verus!
