//! The running session screen: a timer, the session's label and a stop
//! button.

use vstd::prelude::*;
use std::time::Instant;
use crate::key::Key;
use crate::text::{clock_text, format_clock};
use crate::clock::{instant_now, elapsed_secs, unix_time_secs};

verus! {

/// A session being timed.
#[derive(Debug)]
pub struct Session {
    /// The label the session will be saved under.
    pub tag: String,
    /// Which line has the focus: 1 the label, 0 the stop button.
    selected: u8,
    start: Instant,
    started_at: u64,
}

/// What the session screen asks of the application after a key.
#[derive(Clone, Copy, Debug, PartialEq, Eq, Structural)]
pub enum SessionAction {
    Nothing,
    Stop,
}

/// What a session is, as plain values.
pub struct SessionView {
    pub tag: Seq<char>,
    pub selected: u8,
    pub start: Instant,
    pub started_at: u64,
}

/// The label a new session gets.
pub open spec fn default_tag() -> Seq<char> {
    "wonderful-thinking-session"@
}

impl SessionView {
    /// How a key moves the focus, and what it asks for: Down focuses the
    /// stop button, Up the label; `q` and Esc stop; Enter stops when the stop
    /// button has the focus.
    pub open spec fn step(self, key: Key) -> (SessionView, SessionAction) {
        match key {
            Key::Down => (SessionView { selected: 0, ..self }, SessionAction::Nothing),
            Key::Up => (SessionView { selected: 1, ..self }, SessionAction::Nothing),
            Key::Char(c) => if c == 'q' {
                (self, SessionAction::Stop)
            } else {
                (self, SessionAction::Nothing)
            },
            Key::Esc => (self, SessionAction::Stop),
            Key::Enter => if self.selected == 0 {
                (self, SessionAction::Stop)
            } else {
                (self, SessionAction::Nothing)
            },
            _ => (self, SessionAction::Nothing),
        }
    }
}

/// Moving the focus to the stop button and pressing Enter stops the session;
/// moving it to the label and pressing Enter does not.
pub proof fn law_enter_follows_focus(v: SessionView)
    ensures
        v.step(Key::Down).0.step(Key::Enter).1 == SessionAction::Stop,
        v.step(Key::Up).0.step(Key::Enter).1 == SessionAction::Nothing,
{
}

/// Whatever the focus, `q` and Esc stop the session and change nothing.
pub proof fn law_quit_keys_stop(v: SessionView)
    ensures
        v.step(Key::Char('q')) == (v, SessionAction::Stop),
        v.step(Key::Esc) == (v, SessionAction::Stop),
{
}

/// Down puts the focus on the stop button (0) and Up on the label (1),
/// from either; neither asks for anything or touches the rest of the
/// session.
pub proof fn law_arrows_move_focus(v: SessionView)
    ensures
        v.step(Key::Down) == (SessionView { selected: 0, ..v }, SessionAction::Nothing),
        v.step(Key::Up) == (SessionView { selected: 1, ..v }, SessionAction::Nothing),
        v.step(Key::Down).0.started_at == v.started_at,
        v.step(Key::Down).0.tag == v.tag,
{
}

/// Keys other than the arrows, Enter, `q` and Esc change nothing and ask for
/// nothing; no key changes the label, the start or its date.
pub proof fn law_other_keys_ignored(v: SessionView, key: Key)
    ensures
        key != Key::Up && key != Key::Down && key != Key::Enter && key != Key::Esc && key != Key::Char('q')
            ==> v.step(key) == (v, SessionAction::Nothing),
        v.step(key).0.tag == v.tag,
        v.step(key).0.start == v.start,
        v.step(key).0.started_at == v.started_at,
{
}

impl View for Session {
    type V = SessionView;

    closed spec fn view(&self) -> SessionView {
        SessionView {
            tag: self.tag@,
            selected: self.selected,
            start: self.start,
            started_at: self.started_at,
        }
    }
}

impl Session {
    /// The session started at the monotonic reading `start` and, when there
    /// is one, the wall-clock reading `now_secs` in Unix seconds: labelled with
    /// the default label, with the focus on the label. `None` when there is no
    /// wall-clock reading, so that the start cannot be dated.
    pub fn started(start: Instant, now_secs: Option<u64>) -> (r: Option<Session>)
        ensures
            r is Some <==> now_secs is Some,
            r matches Some(s) ==> s@ == (SessionView {
                tag: default_tag(),
                selected: 1,
                start,
                started_at: now_secs->0,
            }),
    {
        match now_secs {
            Some(started_at) => Some(Session {
                tag: "wonderful-thinking-session".to_owned(),
                selected: 1,
                start,
                started_at,
            }),
            None => None,
        }
    }

    /// Starts timing a session now, as `Session::started` says of the two
    /// clocks' current readings. Returns `None` when the wall clock reads a
    /// time before the Unix epoch, so that the start cannot be dated.
    pub fn new() -> (r: Option<Session>)
        ensures
            r matches Some(s) ==> s@.tag == default_tag() && s@.selected == 1,
    {
        Session::started(instant_now(), unix_time_secs())
    }

    /// Which line has the focus: 1 the label, 0 the stop button.
    pub fn selected(&self) -> (r: u8)
        ensures
            r == self@.selected,
    {
        self.selected
    }

    /// The label the session will be saved under.
    pub fn tag(&self) -> (r: &String)
        ensures
            r@ == self@.tag,
    {
        &self.tag
    }

    /// The time the session has run so far, as `"hh:mm:ss"`.
    pub fn elapsed_display(&self) -> (r: String)
        ensures
            exists|secs: u64| r@ == clock_text(secs as nat),
    {
        let secs = elapsed_secs(&self.start);
        format_clock(secs)
    }

    /// Moves the focus or asks to stop, as `SessionView::step` says.
    pub fn handle_key(&mut self, key: Key) -> (a: SessionAction)
        ensures
            (final(self)@, a) == old(self)@.step(key),
    {
        match key {
            Key::Down => {
                self.selected = 0;
                SessionAction::Nothing
            },
            Key::Up => {
                self.selected = 1;
                SessionAction::Nothing
            },
            Key::Char(c) => if c == 'q' {
                SessionAction::Stop
            } else {
                SessionAction::Nothing
            },
            Key::Esc => SessionAction::Stop,
            Key::Enter => if self.selected == 0 {
                SessionAction::Stop
            } else {
                SessionAction::Nothing
            },
            _ => SessionAction::Nothing,
        }
    }

    /// Ends the session: its start as Unix seconds and how many whole seconds
    /// it has run. The session itself is left as it was.
    pub fn stop(&mut self) -> (r: (u64, u64))
        ensures
            *final(self) == *old(self),
            r.0 == old(self)@.started_at,
    {
        let duration: u64 = elapsed_secs(&self.start);
        (self.started_at, duration)
    }
}

} // verus!
