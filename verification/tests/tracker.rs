use staze::history::SessionRecord;
use staze::key::Key;
use staze::session::Session;
use staze::tracker::{cutoff_secs, load_sessions, period_days, since_days, step_screen_at, App, Command, Screen};
use std::time::Instant;

fn now_secs() -> u64 {
    std::time::SystemTime::now()
        .duration_since(std::time::UNIX_EPOCH)
        .unwrap()
        .as_secs()
}

#[test]
fn periods_in_days() {
    assert_eq!(period_days(0), 7);
    assert_eq!(period_days(1), 30);
    assert_eq!(period_days(2), 365);
    assert_eq!(period_days(200), 365);
}

#[test]
fn cutoff_values() {
    assert_eq!(cutoff_secs(1_000_000, 7), Some(1_000_000 - 604_800));
    assert_eq!(cutoff_secs(604_800, 7), Some(0));
    assert_eq!(cutoff_secs(604_799, 7), None);
    assert_eq!(cutoff_secs(0, 0), Some(0));
    assert_eq!(cutoff_secs(u64::MAX, 0), Some(-1));
}

#[test]
fn since_days_reads_clock() {
    let before = now_secs();
    let c = since_days(30).unwrap();
    let after = now_secs();
    assert!(c as u64 + 30 * 86400 >= before && c as u64 + 30 * 86400 <= after);
    assert!(since_days(u64::MAX / 86400).is_none());
}

#[test]
fn app_starts_home() {
    let app = App::new();
    assert!(!app.should_exit());
    assert!(matches!(app.screen(), Screen::Home(h) if h.selected() == 0));
    assert!(matches!(Screen::default(), Screen::Home(_)));
}

#[test]
fn q_quits_from_home_only() {
    let mut app = App::new();
    assert!(matches!(app.handle_key(Key::Char('q')), Command::Nothing));
    assert!(app.should_exit());
    let mut app = App::new();
    app.handle_key(Key::Enter);
    match app.handle_key(Key::Char('q')) {
        Command::SaveSession { label, .. } => assert_eq!(label, "wonderful-thinking-session"),
        _ => panic!("expected the session to be saved"),
    }
    assert!(!app.should_exit());
    assert!(matches!(app.screen(), Screen::Home(_)));
    let mut app = App::new();
    app.handle_key(Key::Right);
    app.handle_key(Key::Enter);
    app.sessions_loaded(Vec::new());
    assert!(matches!(app.handle_key(Key::Char('q')), Command::Nothing));
    assert!(!app.should_exit());
    assert!(matches!(app.screen(), Screen::Home(_)));
    assert!(matches!(app.handle_key(Key::Char('q')), Command::Nothing));
    assert!(app.should_exit());
}

#[test]
fn session_round_trip() {
    let mut app = App::new();
    assert!(matches!(app.handle_key(Key::Enter), Command::Nothing));
    assert!(matches!(app.screen(), Screen::Session(_)));
    assert!(matches!(app.handle_key(Key::Down), Command::Nothing));
    match app.handle_key(Key::Enter) {
        Command::SaveSession { started_at, duration, label } => {
            assert!(started_at + 5 >= now_secs());
            assert!(duration <= 5);
            assert_eq!(label, "wonderful-thinking-session");
        }
        _ => panic!("expected the session to be saved"),
    }
    assert!(matches!(app.screen(), Screen::Home(_)));
    assert!(!app.should_exit());
}

#[test]
fn session_escape_saves() {
    let mut app = App::new();
    app.handle_key(Key::Enter);
    assert!(matches!(app.handle_key(Key::Esc), Command::SaveSession { .. }));
    assert!(matches!(app.screen(), Screen::Home(_)));
}

#[test]
fn history_round_trip() {
    let mut app = App::new();
    app.handle_key(Key::Right);
    let before = now_secs();
    let since = match app.handle_key(Key::Enter) {
        Command::LoadSessions { since } => since,
        _ => panic!("expected a load"),
    };
    assert!(since as u64 + 30 * 86400 >= before);
    assert!(matches!(app.screen(), Screen::Home(_)));
    app.sessions_loaded(vec![SessionRecord { started_at: since, duration_sec: 90 }]);
    match app.screen() {
        Screen::History(h) => {
            assert_eq!(h.selected(), 1);
            assert_eq!(h.get_total_worked(), 90);
        }
        _ => panic!("expected the history"),
    }
    let week = match app.handle_key(Key::Left) {
        Command::LoadSessions { since } => since,
        _ => panic!("expected a load"),
    };
    assert!(week > since);
    assert!(week as u64 + 7 * 86400 >= before);
    app.sessions_loaded(Vec::new());
    match app.screen() {
        Screen::History(h) => {
            assert_eq!(h.selected(), 0);
            assert_eq!(h.get_total_worked(), 0);
        }
        _ => panic!("expected the history"),
    }
    assert!(matches!(app.handle_key(Key::Char('x')), Command::Nothing));
    assert!(matches!(app.handle_key(Key::Esc), Command::Nothing));
    assert!(matches!(app.screen(), Screen::Home(h) if h.selected() == 0));
}

#[test]
fn sessions_ignored_while_timing() {
    let mut app = App::new();
    app.handle_key(Key::Enter);
    app.sessions_loaded(vec![SessionRecord { started_at: 0, duration_sec: 1 }]);
    assert!(matches!(app.screen(), Screen::Session(_)));
}

#[test]
fn session_started_from_readings() {
    let start = Instant::now();
    let s = Session::started(start, Some(1_700_000_000)).unwrap();
    assert_eq!(s.tag, "wonderful-thinking-session");
    assert_eq!(s.selected(), 1);
    let mut s2 = s;
    assert_eq!(s2.stop().0, 1_700_000_000);
    assert!(Session::started(start, None).is_none());
}

#[test]
fn load_commands() {
    assert!(matches!(load_sessions(Some(1_000_000), 7), Command::LoadSessions { since: 395_200 }));
    assert!(matches!(load_sessions(Some(100), 7), Command::BeforeEpoch));
    assert!(matches!(load_sessions(None, 7), Command::BeforeEpoch));
}

#[test]
fn step_with_given_clock() {
    let start = Instant::now();
    let now = Some(10_000_000u64);
    let (screen, cmd) = step_screen_at(Screen::default(), Key::Right, now, start);
    assert!(matches!(cmd, Command::Nothing));
    let (screen, cmd) = step_screen_at(screen, Key::Enter, now, start);
    assert!(matches!(cmd, Command::LoadSessions { since: 7_408_000 }));
    assert!(matches!(screen, Screen::Home(_)));
    let mut app = App::new();
    app.handle_key_at(Key::Right, now, start);
    app.handle_key_at(Key::Enter, now, start);
    app.sessions_loaded(Vec::new());
    assert!(matches!(app.handle_key_at(Key::Left, now, start), Command::LoadSessions { since: 9_395_200 }));
    assert!(matches!(app.handle_key_at(Key::Enter, now, start), Command::LoadSessions { since: 9_395_200 }));
    assert!(matches!(app.handle_key_at(Key::Right, now, start), Command::LoadSessions { since: 7_408_000 }));
    assert!(matches!(app.handle_key_at(Key::Right, now, start), Command::BeforeEpoch));
    assert!(matches!(app.handle_key_at(Key::Enter, Some(40_000_000), start), Command::LoadSessions { since: 8_464_000 }));
    assert!(matches!(app.handle_key_at(Key::Enter, None, start), Command::BeforeEpoch));
    assert!(matches!(app.handle_key_at(Key::Esc, now, start), Command::Nothing));
    let (screen, cmd) = step_screen_at(Screen::default(), Key::Enter, Some(42), start);
    assert!(matches!(cmd, Command::Nothing));
    match screen {
        Screen::Session(mut s) => assert_eq!(s.stop().0, 42),
        _ => panic!("expected a session"),
    }
    let (screen, cmd) = step_screen_at(Screen::default(), Key::Enter, None, start);
    assert!(matches!(cmd, Command::BeforeEpoch));
    assert!(matches!(screen, Screen::Home(_)));
}
