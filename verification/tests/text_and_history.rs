use staze::history::{format_duration, History, HistoryAction, SessionRecord};
use staze::key::Key;
use staze::text::{format_clock, push_decimal, push_int, push_pad2};

fn rec(started_at: i64, duration_sec: i64) -> SessionRecord {
    SessionRecord { started_at, duration_sec }
}

#[test]
fn decimal_numerals() {
    for (n, want) in [(0u64, "0"), (7, "7"), (10, "10"), (1234567890, "1234567890"), (u64::MAX, "18446744073709551615")] {
        let mut s = String::from("x=");
        push_decimal(&mut s, n);
        assert_eq!(s, format!("x={}", want));
    }
}

#[test]
fn signed_and_padded_numerals() {
    let mut s = String::new();
    push_int(&mut s, true, 12);
    push_int(&mut s, true, 0);
    push_int(&mut s, false, 3);
    assert_eq!(s, "-1203");
    let mut p = String::new();
    push_pad2(&mut p, false, 5);
    push_pad2(&mut p, false, 42);
    push_pad2(&mut p, true, 5);
    push_pad2(&mut p, true, 0);
    push_pad2(&mut p, false, 123);
    assert_eq!(p, "0542-500123");
}

#[test]
fn clock_format() {
    assert_eq!(format_clock(0), "00:00:00");
    assert_eq!(format_clock(3725), "01:02:05");
    assert_eq!(format_clock(59), "00:00:59");
    assert_eq!(format_clock(360000), "100:00:00");
}

#[test]
fn duration_format() {
    assert_eq!(format_duration(3725), "1h 02m");
    assert_eq!(format_duration(0), "0h 00m");
    assert_eq!(format_duration(59), "0h 00m");
    assert_eq!(format_duration(36000 + 59 * 60), "10h 59m");
}

#[test]
fn duration_format_negative() {
    assert_eq!(format_duration(-3700), "-1h -1m");
    assert_eq!(format_duration(-59), "0h 00m");
    assert_eq!(format_duration(-60), "0h -1m");
    assert_eq!(format_duration(-600), "0h -10m");
    assert_eq!(format_duration(i64::MIN), "-2562047788015215h -30m");
    assert_eq!(format_duration(i64::MAX), "2562047788015215h 30m");
}

#[test]
fn duration_format_matches_std() {
    for secs in [-7325i64, -3600, -1, 1, 61, 3599, 3600, 86399, 1_000_000] {
        let want = format!("{}h {:02}m", secs / 3600, (secs % 3600) / 60);
        assert_eq!(format_duration(secs), want);
    }
}

#[test]
fn history_starts_on_month() {
    let h = History::new(vec![rec(10, 60)]);
    assert_eq!(h.selected(), 1);
    assert_eq!(h.sessions(), &vec![rec(10, 60)]);
    assert_eq!(h.period_label(), "a month ago");
}

#[test]
fn history_periods_saturate() {
    let mut h = History::new(Vec::new());
    assert_eq!(h.handle_key(Key::Left), HistoryAction::Query(0));
    assert_eq!(h.period_label(), "a week ago");
    assert_eq!(h.handle_key(Key::Left), HistoryAction::Query(0));
    assert_eq!(h.handle_key(Key::Right), HistoryAction::Query(1));
    assert_eq!(h.handle_key(Key::Right), HistoryAction::Query(2));
    assert_eq!(h.period_label(), "a year ago");
    assert_eq!(h.handle_key(Key::Right), HistoryAction::Query(2));
    assert_eq!(h.selected(), 2);
}

#[test]
fn history_leave_keys() {
    let mut h = History::new(Vec::new());
    assert_eq!(h.handle_key(Key::Esc), HistoryAction::Stop);
    assert_eq!(h.handle_key(Key::Char('q')), HistoryAction::Stop);
    assert_eq!(h.handle_key(Key::Char('Q')), HistoryAction::Nothing);
    assert_eq!(h.handle_key(Key::Up), HistoryAction::Nothing);
    assert_eq!(h.selected(), 1);
}

#[test]
fn history_right_then_left_law() {
    for start in [0u8, 1] {
        let mut h = History::new(Vec::new());
        if start == 0 {
            h.handle_key(Key::Left);
        }
        h.handle_key(Key::Right);
        assert_eq!(h.handle_key(Key::Left), HistoryAction::Query(start));
        assert_eq!(h.selected(), start);
    }
}

#[test]
fn history_update_keeps_period() {
    let mut h = History::new(vec![rec(1, 1)]);
    h.handle_key(Key::Left);
    h.update(vec![rec(2, 30), rec(3, 40)]);
    assert_eq!(h.selected(), 0);
    assert_eq!(h.sessions(), &vec![rec(2, 30), rec(3, 40)]);
    assert_eq!(h.get_total_worked(), 70);
}

#[test]
fn history_total_worked() {
    assert_eq!(History::new(Vec::new()).get_total_worked(), 0);
    let h = History::new(vec![rec(0, 3600), rec(0, 1800), rec(0, -100)]);
    assert_eq!(h.get_total_worked(), 5300);
    assert_eq!(format_duration(h.get_total_worked()), "1h 28m");
}

#[test]
fn history_enter_reloads_selected_period() {
    let mut h = History::new(vec![rec(5, 5)]);
    assert_eq!(h.handle_key(Key::Enter), HistoryAction::Query(1));
    assert_eq!(h.selected(), 1);
    h.handle_key(Key::Right);
    assert_eq!(h.handle_key(Key::Enter), HistoryAction::Query(2));
    assert_eq!(h.selected(), 2);
    assert_eq!(h.sessions(), &vec![rec(5, 5)]);
}
