use pomobar::dispatcher::{Event, PomobarDispatcher};
use pomobar::timer::{Paused, Pomobar, Work};
use pomobar::view::{clock_text, tooltip_text};

const T0: i64 = 1_700_000_000_000;

#[test]
fn clock_text_is_minutes_and_seconds() {
    assert_eq!(clock_text(0), "00:00");
    assert_eq!(clock_text(1_500_000), "25:00");
    assert_eq!(clock_text(59_999), "00:59");
    assert_eq!(clock_text(61_000), "01:01");
    assert_eq!(clock_text(6_000_000), "100:00");
}

#[test]
fn tooltip_counts_sessions() {
    assert_eq!(tooltip_text(0), "Completed 0 pomodoros.");
    assert_eq!(tooltip_text(12), "Completed 12 pomodoros.");
    assert_eq!(tooltip_text(u32::MAX), "Completed 4294967295 pomodoros.");
}

#[test]
fn view_of_idle() {
    let s = PomobarDispatcher::Idle(Pomobar::new());
    assert_eq!(
        s.to_view_at(T0),
        "{\"alt\":\"idle\",\"class\":\"idle\",\"text\":\"25:00\",\"tooltip\":\"Completed 0 pomodoros.\"}"
    );
}

#[test]
fn view_of_work_and_pause() {
    let s = PomobarDispatcher::Work(Pomobar { state: Work { started_at: T0, cycles: 3 } });
    assert_eq!(
        s.to_view_at(T0 + 90_500),
        "{\"alt\":\"work\",\"class\":\"work\",\"text\":\"23:29\",\"tooltip\":\"Completed 3 pomodoros.\"}"
    );
    let fields = s.view_fields_at(T0 + 90_500);
    assert_eq!(fields.len(), 4);
    assert_eq!(fields[2], ("text".to_string(), "23:29".to_string()));
    let p = PomobarDispatcher::Paused(Pomobar { state: Paused { remaining: 61_000, cycles: 1 } });
    assert_eq!(
        p.to_view_at(T0),
        "{\"alt\":\"paused\",\"class\":\"paused\",\"text\":\"01:01\",\"tooltip\":\"Completed 1 pomodoros.\"}"
    );
    let (b, _) = s.apply_at(Event::Tick, T0 + 1_500_000);
    assert_eq!(
        b.to_view_at(T0 + 1_500_000),
        "{\"alt\":\"long_break\",\"class\":\"long_break\",\"text\":\"15:00\",\"tooltip\":\"Completed 4 pomodoros.\"}"
    );
}
