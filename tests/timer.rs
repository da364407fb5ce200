use pomobar::command::parse_command;
use pomobar::dispatcher::{Effect, Event, Notice, PomobarDispatcher};
use pomobar::timer::{
    remaining_between, Idle, LongBreak, Paused, Pomobar, ShortBreak, TimedState, Work,
    LONG_BREAK_MS, SHORT_BREAK_MS, WORK_MS,
};

const T0: i64 = 1_700_000_000_000;
const MINUTE: i64 = 60_000;

fn step(s: PomobarDispatcher, e: Event, now: i64) -> PomobarDispatcher {
    s.apply_at(e, now).0
}

fn idle() -> PomobarDispatcher {
    PomobarDispatcher::Idle(Pomobar::new())
}

#[test]
fn durations_are_fixed() {
    assert_eq!(WORK_MS, 25 * MINUTE);
    assert_eq!(SHORT_BREAK_MS, 5 * MINUTE);
    assert_eq!(LONG_BREAK_MS, 15 * MINUTE);
    let w = Work { started_at: 0, cycles: 0 };
    let s = ShortBreak { started_at: 0, cycles: 0 };
    let l = LongBreak { started_at: 0, cycles: 0 };
    assert_eq!(w.duration(), 25 * MINUTE);
    assert_eq!(s.duration(), 5 * MINUTE);
    assert_eq!(l.duration(), 15 * MINUTE);
}

#[test]
fn remaining_is_clamped_at_zero() {
    assert_eq!(remaining_between(WORK_MS, T0, T0 + 10 * MINUTE), 15 * MINUTE);
    assert_eq!(remaining_between(WORK_MS, T0, T0 + WORK_MS), 0);
    assert_eq!(remaining_between(WORK_MS, T0, T0 + 2 * WORK_MS), 0);
    assert_eq!(remaining_between(WORK_MS, i64::MAX, i64::MIN), i64::MAX);
}

#[test]
fn start_pause_resume_by_hand() {
    let work = Pomobar::<Idle>::default().start_at(T0);
    assert_eq!(work.state.started_at, T0);
    assert_eq!(work.state.cycles, 0);
    let paused = work.pause_at(T0 + 10 * MINUTE);
    assert_eq!(paused.state.remaining, 15 * MINUTE);
    let resumed = paused.resume_at(T0 + 40 * MINUTE);
    assert_eq!(resumed.state.started_at, T0 + 30 * MINUTE);
    let late = Pomobar { state: Work { started_at: T0, cycles: 2 } }.pause_at(T0 + 90 * MINUTE);
    assert_eq!(late.state.remaining, 0);
    assert_eq!(late.state.cycles, 2);
    let p = Pomobar { state: Paused { remaining: 0, cycles: 1 } }.resume_at(T0);
    assert_eq!(p.state.started_at, T0 - WORK_MS);
}

#[test]
fn finish_picks_break_by_count() {
    let short = Pomobar { state: Work { started_at: T0, cycles: 0 } }.finish_at(T0 + WORK_MS);
    assert!(matches!(short, PomobarDispatcher::ShortBreak(ref p) if p.state.cycles == 1 && p.state.started_at == T0 + WORK_MS));
    let long = Pomobar { state: Work { started_at: T0, cycles: 3 } }.finish_at(T0 + WORK_MS);
    assert!(matches!(long, PomobarDispatcher::LongBreak(ref p) if p.state.cycles == 4));
    let back = Pomobar { state: ShortBreak { started_at: T0, cycles: 1 } }.finish_at(T0 + 5 * MINUTE);
    assert_eq!(back.state.cycles, 1);
    assert_eq!(back.state.started_at, T0 + 5 * MINUTE);
    let back = Pomobar { state: LongBreak { started_at: T0, cycles: 4 } }.finish_at(T0 + 15 * MINUTE);
    assert_eq!(back.state.cycles, 4);
}

#[test]
fn scenario_toggle_pause_resume_then_break() {
    let s = step(idle(), Event::Toggle, T0);
    assert_eq!(s.get_state_name(), "work");
    assert_eq!(s.get_cycles(), 0);
    assert_eq!(s.get_remaining_time_at(T0), 25 * MINUTE);

    let s = step(s, Event::Toggle, T0 + 10 * MINUTE);
    assert_eq!(s.get_state_name(), "paused");
    assert_eq!(s.get_remaining_time_at(T0 + 10 * MINUTE), 15 * MINUTE);
    assert_eq!(s.get_remaining_time_at(T0 + 50 * MINUTE), 15 * MINUTE);

    let t1 = T0 + 12 * MINUTE;
    let s = step(s, Event::Toggle, t1);
    assert_eq!(s.get_state_name(), "work");
    assert_eq!(s.get_remaining_time_at(t1), 15 * MINUTE);

    let s = step(s, Event::Tick, t1 + 15 * MINUTE);
    assert_eq!(s.get_state_name(), "short_break");
    assert_eq!(s.get_cycles(), 1);
}

#[test]
fn pause_resume_keeps_remaining() {
    let s = step(idle(), Event::Toggle, T0);
    let before = s.get_remaining_time_at(T0 + 7 * MINUTE + 321);
    let s = step(s, Event::Toggle, T0 + 7 * MINUTE + 321);
    let s = step(s, Event::Toggle, T0 + 3_000 * MINUTE);
    assert_eq!(s.get_remaining_time_at(T0 + 3_000 * MINUTE), before);
}

#[test]
fn remaining_never_negative() {
    let s = step(idle(), Event::Toggle, T0);
    assert_eq!(s.get_remaining_time_at(T0 + 1_000 * MINUTE), 0);
    assert!(s.get_remaining_time_at(T0 - 1_000 * MINUTE) > 0);
    assert_eq!(idle().get_remaining_time_at(T0), WORK_MS);
    let s = step(s, Event::Toggle, T0 + 26 * MINUTE);
    assert_eq!(s.get_remaining_time_at(T0), 0);
}

#[test]
fn toggle_on_break_changes_nothing() {
    let short = PomobarDispatcher::ShortBreak(Pomobar { state: ShortBreak { started_at: T0, cycles: 2 } });
    let (s, effect) = short.apply_at(Event::Toggle, T0 + MINUTE);
    assert!(matches!(effect, Effect::Quiet));
    assert!(matches!(s, PomobarDispatcher::ShortBreak(ref p) if p.state.cycles == 2 && p.state.started_at == T0));
    let long = PomobarDispatcher::LongBreak(Pomobar { state: LongBreak { started_at: T0, cycles: 4 } });
    let (s, effect) = long.apply_at(Event::Toggle, T0 + MINUTE);
    assert!(matches!(effect, Effect::Quiet));
    assert!(matches!(s, PomobarDispatcher::LongBreak(ref p) if p.state.cycles == 4 && p.state.started_at == T0));
}

#[test]
fn fourth_completion_is_long_break() {
    let mut now = T0;
    let mut s = step(idle(), Event::Toggle, now);
    for round in 1..=4u32 {
        now += WORK_MS;
        s = step(s, Event::Tick, now);
        assert_eq!(s.get_cycles(), round);
        if round == 4 {
            assert_eq!(s.get_state_name(), "long_break");
            now += LONG_BREAK_MS;
        } else {
            assert_eq!(s.get_state_name(), "short_break");
            now += SHORT_BREAK_MS;
        }
        s = step(s, Event::Tick, now);
        assert_eq!(s.get_state_name(), "work");
        assert_eq!(s.get_cycles(), round);
    }
    now += WORK_MS;
    s = step(s, Event::Tick, now);
    assert_eq!(s.get_state_name(), "short_break");
    assert_eq!(s.get_cycles(), 5);
}

#[test]
fn reset_from_any_state() {
    let states = vec![
        idle(),
        PomobarDispatcher::Work(Pomobar { state: Work { started_at: T0, cycles: 7 } }),
        PomobarDispatcher::Paused(Pomobar { state: Paused { remaining: 5, cycles: 3 } }),
        PomobarDispatcher::ShortBreak(Pomobar { state: ShortBreak { started_at: T0, cycles: 9 } }),
        PomobarDispatcher::LongBreak(Pomobar { state: LongBreak { started_at: T0, cycles: 12 } }),
    ];
    for s in states {
        let (next, effect) = s.apply_at(Event::Reset, T0);
        assert_eq!(next.get_state_name(), "idle");
        assert_eq!(next.get_cycles(), 0);
        assert!(matches!(effect, Effect::Notify(Notice::Reset)));
    }
}

#[test]
fn late_tick_finishes_once() {
    let s = PomobarDispatcher::Work(Pomobar { state: Work { started_at: T0, cycles: 0 } });
    let late = T0 + WORK_MS + 3 * 60 * MINUTE;
    let (s, effect) = s.apply_at(Event::Tick, late);
    assert!(matches!(effect, Effect::Notify(Notice::Break)));
    assert_eq!(s.get_state_name(), "short_break");
    assert_eq!(s.get_cycles(), 1);
    let (s, effect) = s.apply_at(Event::Tick, late);
    assert!(matches!(effect, Effect::Quiet));
    assert_eq!(s.get_state_name(), "short_break");
    assert_eq!(s.get_cycles(), 1);
}

#[test]
fn tick_before_deadline_and_on_idle_or_paused_is_quiet() {
    let s = step(idle(), Event::Toggle, T0);
    let (s, effect) = s.apply_at(Event::Tick, T0 + WORK_MS - 1);
    assert!(matches!(effect, Effect::Quiet));
    assert_eq!(s.get_state_name(), "work");
    let (s, effect) = idle().apply_at(Event::Tick, T0);
    assert!(matches!(effect, Effect::Quiet));
    assert_eq!(s.get_state_name(), "idle");
    let p = PomobarDispatcher::Paused(Pomobar { state: Paused { remaining: 0, cycles: 1 } });
    let (s, effect) = p.apply_at(Event::Tick, T0);
    assert!(matches!(effect, Effect::Quiet));
    assert_eq!(s.get_state_name(), "paused");
}

#[test]
fn break_end_notices_differ() {
    let s = PomobarDispatcher::ShortBreak(Pomobar { state: ShortBreak { started_at: T0, cycles: 1 } });
    let (s, effect) = s.apply_at(Event::Tick, T0 + SHORT_BREAK_MS);
    assert!(matches!(effect, Effect::Notify(Notice::BreakOver)));
    assert_eq!(s.get_state_name(), "work");
    let l = PomobarDispatcher::LongBreak(Pomobar { state: LongBreak { started_at: T0, cycles: 4 } });
    let (l, effect) = l.apply_at(Event::Tick, T0 + LONG_BREAK_MS);
    assert!(matches!(effect, Effect::Notify(Notice::LongBreakOver)));
    assert_eq!(l.get_cycles(), 4);
}

#[test]
fn notices_have_their_words() {
    assert_eq!(Notice::Focus.message(), "Time to focus!");
    assert_eq!(Notice::Pause.message(), "Pomodoro paused.");
    assert_eq!(Notice::Resume.message(), "Resuming pomodoro.");
    assert_eq!(Notice::Break.message(), "Time for a break!");
    assert_eq!(Notice::BreakOver.message(), "Break is over. Time to focus!");
    assert_eq!(Notice::LongBreakOver.message(), "Long break is over. Time to get back to it!");
    assert_eq!(Notice::Reset.message(), "Reset timer.");
}

#[test]
fn status_leaves_state_and_asks_reply() {
    let s = step(idle(), Event::Toggle, T0);
    let (s, effect) = s.apply_at(Event::Status, T0 + MINUTE);
    assert!(matches!(effect, Effect::Reply));
    assert!(matches!(s, PomobarDispatcher::Work(ref p) if p.state.started_at == T0));
}

#[test]
fn command_words() {
    assert!(matches!(parse_command(b"toggle"), Event::Toggle));
    assert!(matches!(parse_command(b"reset"), Event::Reset));
    assert!(matches!(parse_command(b"status"), Event::Status));
    assert!(matches!(parse_command(b"toggle\n"), Event::Status));
    assert!(matches!(parse_command(b"Reset"), Event::Status));
    assert!(matches!(parse_command(b"\xff\xfe"), Event::Status));
}

#[test]
fn unknown_token_replies_like_status() {
    let s = step(idle(), Event::Toggle, T0);
    let (a, ea) = step(s, Event::Toggle, T0 + MINUTE).apply_at(parse_command(b""), T0 + 2 * MINUTE);
    assert!(matches!(ea, Effect::Reply));
    let s = step(idle(), Event::Toggle, T0);
    let (b, eb) = step(s, Event::Toggle, T0 + MINUTE).apply_at(parse_command(b"status"), T0 + 2 * MINUTE);
    assert!(matches!(eb, Effect::Reply));
    assert_eq!(a.to_view_at(T0), b.to_view_at(T0));
}
