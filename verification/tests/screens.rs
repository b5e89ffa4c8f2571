use staze::home::{Home, HomeAction};
use staze::key::Key;
use staze::session::{Session, SessionAction};
use staze::tags::{Tags, TagsAction};

fn tag(name: &str, count: usize) -> (String, usize) {
    (name.to_string(), count)
}

fn three() -> Tags {
    Tags::new(vec![tag("work", 3), tag("read", 1), tag("gym", 12)])
}

fn rename_of(a: TagsAction) -> Option<(String, String)> {
    match a {
        TagsAction::Rename { old, new } => Some((old, new)),
        _ => None,
    }
}

#[test]
fn session_starts_on_label() {
    let s = Session::new().unwrap();
    assert_eq!(s.tag, "wonderful-thinking-session");
    assert_eq!(s.tag(), "wonderful-thinking-session");
    assert_eq!(s.selected(), 1);
}

#[test]
fn session_enter_follows_focus() {
    let mut s = Session::new().unwrap();
    assert_eq!(s.handle_key(Key::Enter), SessionAction::Nothing);
    assert_eq!(s.handle_key(Key::Down), SessionAction::Nothing);
    assert_eq!(s.selected(), 0);
    assert_eq!(s.handle_key(Key::Enter), SessionAction::Stop);
    assert_eq!(s.handle_key(Key::Up), SessionAction::Nothing);
    assert_eq!(s.selected(), 1);
    assert_eq!(s.handle_key(Key::Enter), SessionAction::Nothing);
}

#[test]
fn session_quit_keys() {
    let mut s = Session::new().unwrap();
    assert_eq!(s.handle_key(Key::Char('q')), SessionAction::Stop);
    assert_eq!(s.handle_key(Key::Esc), SessionAction::Stop);
    assert_eq!(s.handle_key(Key::Char('Q')), SessionAction::Nothing);
    assert_eq!(s.handle_key(Key::Left), SessionAction::Nothing);
    assert_eq!(s.selected(), 1);
}

#[test]
fn session_stop_reports_start() {
    let now = std::time::SystemTime::now()
        .duration_since(std::time::UNIX_EPOCH)
        .unwrap()
        .as_secs();
    let mut s = Session::new().unwrap();
    let (start, duration) = s.stop();
    assert!(start >= now && start <= now + 5);
    assert!(duration <= 5);
    let (start2, _) = s.stop();
    assert_eq!(start, start2);
    assert_eq!(s.elapsed_display().len(), 8);
    assert!(s.elapsed_display().starts_with("00:00:0"));
}

#[test]
fn home_menu() {
    let mut h = Home::default();
    assert_eq!(h.selected(), 0);
    assert_eq!(h.handle_key(Key::Left), HomeAction::Nothing);
    assert_eq!(h.handle_key(Key::Enter), HomeAction::StartSession);
    assert_eq!(h.handle_key(Key::Right), HomeAction::Nothing);
    assert_eq!(h.handle_key(Key::Right), HomeAction::Nothing);
    assert_eq!(h.selected(), 1);
    assert_eq!(h.handle_key(Key::Enter), HomeAction::ViewHistory);
    assert_eq!(h.handle_key(Key::Char('x')), HomeAction::Nothing);
    assert_eq!(Home::new().selected(), 0);
}

#[test]
fn tags_navigation() {
    let mut t = three();
    assert_eq!(t.selected(), 0);
    assert!(matches!(t.handle_key(Key::Up), TagsAction::Nothing));
    assert_eq!(t.selected(), 0);
    t.handle_key(Key::Down);
    t.handle_key(Key::Down);
    t.handle_key(Key::Down);
    assert_eq!(t.selected(), 2);
    t.handle_key(Key::Up);
    assert_eq!(t.selected(), 1);
}

#[test]
fn tags_down_then_up_law() {
    let mut t = three();
    t.handle_key(Key::Down);
    t.handle_key(Key::Up);
    assert_eq!(t.selected(), 0);
    assert!(!t.is_editing());
}

#[test]
fn tags_leave_keys() {
    let mut t = three();
    assert!(matches!(t.handle_key(Key::Esc), TagsAction::Stop));
    assert!(matches!(t.handle_key(Key::Char('q')), TagsAction::Stop));
    assert!(matches!(t.handle_key(Key::Char('Q')), TagsAction::Stop));
    assert!(matches!(t.handle_key(Key::Char('x')), TagsAction::Nothing));
    assert!(matches!(t.handle_key(Key::Backspace), TagsAction::Nothing));
}

#[test]
fn tags_delete() {
    let mut t = three();
    t.handle_key(Key::Down);
    match t.handle_key(Key::Char('d')) {
        TagsAction::Delete(name) => assert_eq!(name, "read"),
        _ => panic!("expected a deletion"),
    }
    match t.handle_key(Key::Char('D')) {
        TagsAction::Delete(name) => assert_eq!(name, "read"),
        _ => panic!("expected a deletion"),
    }
    assert_eq!(t.selected(), 1);
    let mut empty = Tags::new(Vec::new());
    assert!(matches!(empty.handle_key(Key::Char('d')), TagsAction::Nothing));
}

#[test]
fn tags_rename() {
    let mut t = three();
    t.handle_key(Key::Enter);
    assert!(t.is_editing());
    assert_eq!(t.row_text(0), "  work_ (3 sessions)");
    t.handle_key(Key::Backspace);
    t.handle_key(Key::Backspace);
    t.handle_key(Key::Char('k'));
    assert_eq!(t.row_text(0), "  wok_ (3 sessions)");
    assert_eq!(t.row_text(1), "  read (1 sessions)");
    let a = t.handle_key(Key::Enter);
    assert_eq!(rename_of(a), Some(("work".to_string(), "wok".to_string())));
    assert!(!t.is_editing());
    assert_eq!(t.row_text(0), "  work (3 sessions)");
}

#[test]
fn tags_rename_is_trimmed() {
    let mut t = three();
    t.handle_key(Key::Enter);
    t.handle_key(Key::Char(' '));
    t.handle_key(Key::Char('\u{3000}'));
    let a = t.handle_key(Key::Enter);
    assert!(matches!(a, TagsAction::Nothing));
    t.handle_key(Key::Enter);
    for _ in 0..4 {
        t.handle_key(Key::Backspace);
    }
    t.handle_key(Key::Backspace);
    for c in "\t deep work \n".chars() {
        t.handle_key(Key::Char(c));
    }
    assert_eq!(rename_of(t.handle_key(Key::Enter)), Some(("work".to_string(), "deep work".to_string())));
}

#[test]
fn tags_rename_to_blank_cancels() {
    let mut t = three();
    t.handle_key(Key::Enter);
    for _ in 0..4 {
        t.handle_key(Key::Backspace);
    }
    t.handle_key(Key::Char(' '));
    assert!(matches!(t.handle_key(Key::Enter), TagsAction::Nothing));
    assert!(!t.is_editing());
}

#[test]
fn tags_open_then_confirm_law() {
    let mut t = three();
    t.handle_key(Key::Down);
    t.handle_key(Key::Enter);
    assert!(matches!(t.handle_key(Key::Enter), TagsAction::Nothing));
    assert!(!t.is_editing());
    assert_eq!(t.selected(), 1);
}

#[test]
fn tags_open_then_confirm_untrimmed_label() {
    let mut t = Tags::new(vec![tag(" padded ", 2)]);
    t.handle_key(Key::Enter);
    assert_eq!(rename_of(t.handle_key(Key::Enter)), Some((" padded ".to_string(), "padded".to_string())));
}

#[test]
fn tags_open_then_cancel_law() {
    let mut t = three();
    t.handle_key(Key::Enter);
    t.handle_key(Key::Char('z'));
    assert!(matches!(t.handle_key(Key::Esc), TagsAction::Nothing));
    assert!(!t.is_editing());
    assert_eq!(t.row_text(0), "  work (3 sessions)");
}

#[test]
fn tags_type_then_erase_law() {
    let mut t = three();
    t.handle_key(Key::Enter);
    t.handle_key(Key::Char('é'));
    t.handle_key(Key::Backspace);
    assert_eq!(t.row_text(0), "  work_ (3 sessions)");
    assert!(t.is_editing());
}

#[test]
fn tags_edit_keys_are_text() {
    let mut t = three();
    t.handle_key(Key::Enter);
    assert!(matches!(t.handle_key(Key::Char('q')), TagsAction::Nothing));
    assert!(matches!(t.handle_key(Key::Char('d')), TagsAction::Nothing));
    assert!(matches!(t.handle_key(Key::Up), TagsAction::Nothing));
    assert_eq!(t.row_text(0), "  workqd_ (3 sessions)");
    assert_eq!(t.selected(), 0);
}

#[test]
fn tags_enter_on_empty_list() {
    let mut t = Tags::new(Vec::new());
    assert!(matches!(t.handle_key(Key::Enter), TagsAction::Nothing));
    assert!(!t.is_editing());
    assert!(matches!(t.handle_key(Key::Down), TagsAction::Nothing));
}

#[test]
fn tags_update_clamps_and_cancels() {
    let mut t = three();
    t.handle_key(Key::Down);
    t.handle_key(Key::Down);
    t.handle_key(Key::Enter);
    t.update(vec![tag("a", 1)]);
    assert_eq!(t.selected(), 0);
    assert!(!t.is_editing());
    assert_eq!(t.tags(), &vec![tag("a", 1)]);
    t.update(Vec::new());
    assert_eq!(t.selected(), 0);
    let mut u = three();
    u.handle_key(Key::Down);
    u.update(vec![tag("x", 0), tag("y", 0), tag("z", 0), tag("w", 0)]);
    assert_eq!(u.selected(), 1);
    assert_eq!(u.row_text(1), "  y (0 sessions)");
}
