//! The application's decisions: which screen is shown, what a key does to
//! it, and what the application must fetch or store as a result. The
//! terminal, the database and the loop that feeds keys in live outside this
//! crate; they carry out the commands returned here.

use vstd::prelude::*;
use crate::key::Key;
use crate::home::{Home, HomeAction, home_step};
use crate::session::{Session, SessionView, SessionAction, default_tag};
use crate::history::{History, HistoryView, HistoryAction, SessionRecord};
use crate::clock::{instant_now, unix_time_secs};
use std::time::Instant;

verus! {

/// The number of days a history period covers: the week (0), the month (1)
/// or the year (any other).
pub open spec fn period_days_spec(period: u8) -> u64 {
    if period == 0 { 7 } else if period == 1 { 30 } else { 365 }
}

/// The number of days a history period covers, as `period_days_spec` says.
pub fn period_days(period: u8) -> (r: u64)
    ensures
        r == period_days_spec(period),
{
    match period {
        0 => 7,
        1 => 30,
        _ => 365,
    }
}

/// The Unix time `days` days before the Unix time `now`, or `None` when that
/// lies before the epoch.
pub open spec fn cutoff(now: u64, days: u64) -> Option<i64> {
    if now < days * 86400 {
        None
    } else {
        Some((now - days * 86400) as i64)
    }
}

/// The cutoff lies exactly `days` days before the clock reading, whenever
/// that time is on or after the epoch and fits the signed range.
pub proof fn law_cutoff_is_days_before(now: u64, days: u64)
    requires
        days * 86400 <= now,
        now - days * 86400 <= i64::MAX,
    ensures
        cutoff(now, days) matches Some(c) && c + days * 86400 == now,
{
}

/// The Unix time `days` days before `now_secs`, as `cutoff` says.
pub fn cutoff_secs(now_secs: u64, days: u64) -> (r: Option<i64>)
    requires
        days * 86400 <= u64::MAX,
    ensures
        r == cutoff(now_secs, days),
{
    let span = days * 86400;
    if now_secs < span {
        None
    } else {
        Some((now_secs - span) as i64)
    }
}

/// The Unix time `days` days ago, as read from the wall clock. `None` when
/// the clock, or the time `days` days before it, reads before the Unix epoch.
pub fn since_days(days: u64) -> (r: Option<i64>)
    requires
        days * 86400 <= u64::MAX,
    ensures
        r matches Some(c) ==> exists|now: u64| cutoff(now, days) == Some(c),
{
    match unix_time_secs() {
        Some(now) => cutoff_secs(now, days),
        None => None,
    }
}

/// The screen shown.
pub enum Screen {
    Home(Home),
    Session(Session),
    History(History),
}

/// A `Screen` as plain values.
pub enum ScreenView {
    Home(u8),
    Session(SessionView),
    History(HistoryView),
}

impl View for Screen {
    type V = ScreenView;

    open spec fn view(&self) -> ScreenView {
        match self {
            Screen::Home(h) => ScreenView::Home(h@),
            Screen::Session(s) => ScreenView::Session(s@),
            Screen::History(h) => ScreenView::History(h@),
        }
    }
}

impl Default for Screen {
    /// The home menu, focused on its first entry.
    fn default() -> (r: Screen)
        ensures
            r@ == ScreenView::Home(0),
    {
        Screen::Home(Home::new())
    }
}

/// What the application must carry out after a key.
pub enum Command {
    Nothing,
    /// The wall clock reads a time that cannot be dated from the Unix epoch.
    BeforeEpoch,
    /// Fetch the sessions that started at `since` or later, and hand them to
    /// `App::sessions_loaded`.
    LoadSessions { since: i64 },
    /// Store a finished session.
    SaveSession { started_at: u64, duration: u64, label: String },
}

/// A `Command` as plain values.
pub enum CommandView {
    Nothing,
    BeforeEpoch,
    LoadSessions { since: i64 },
    SaveSession { started_at: u64, duration: u64, label: Seq<char> },
}

impl View for Command {
    type V = CommandView;

    open spec fn view(&self) -> CommandView {
        match self {
            Command::Nothing => CommandView::Nothing,
            Command::BeforeEpoch => CommandView::BeforeEpoch,
            Command::LoadSessions { since } => CommandView::LoadSessions { since: *since },
            Command::SaveSession { started_at, duration, label } =>
                CommandView::SaveSession { started_at: *started_at, duration: *duration, label: label@ },
        }
    }
}

/// The command that loads the sessions of the last `days` days, as dated
/// from the wall-clock reading `now_secs`: the clock's failure when there is
/// no reading or the cutoff lies before the epoch.
pub open spec fn load_command(now_secs: Option<u64>, days: u64) -> CommandView {
    match now_secs {
        None => CommandView::BeforeEpoch,
        Some(now) => match cutoff(now, days) {
            None => CommandView::BeforeEpoch,
            Some(since) => CommandView::LoadSessions { since },
        },
    }
}

/// The command that loads the sessions of the last `days` days, as
/// `load_command` says.
pub fn load_sessions(now_secs: Option<u64>, days: u64) -> (cmd: Command)
    requires
        days * 86400 <= u64::MAX,
    ensures
        cmd@ == load_command(now_secs, days),
{
    match now_secs {
        None => Command::BeforeEpoch,
        Some(now) => match cutoff_secs(now, days) {
            None => Command::BeforeEpoch,
            Some(since) => Command::LoadSessions { since },
        },
    }
}

/// What a key does on a screen, given the monotonic clock reading `start`
/// and the wall-clock reading `now_secs` (in Unix seconds, `None` before the
/// epoch) that a new session or a period's cutoff would be dated by: the
/// screen after and the command. Only the duration of a stopped session is
/// left open; it is the monotonic clock's reading at the stop.
pub open spec fn screen_step_at(
    screen: ScreenView,
    key: Key,
    now_secs: Option<u64>,
    start: Instant,
    next: ScreenView,
    cmd: CommandView,
) -> bool {
    match screen {
        ScreenView::Home(h) => {
            let (h2, a) = home_step(h, key);
            match a {
                HomeAction::Nothing => next == ScreenView::Home(h2) && cmd == CommandView::Nothing,
                HomeAction::StartSession => match now_secs {
                    None => next == ScreenView::Home(h2) && cmd == CommandView::BeforeEpoch,
                    Some(now) => cmd == CommandView::Nothing && next == ScreenView::Session(SessionView {
                        tag: default_tag(),
                        selected: 1,
                        start,
                        started_at: now,
                    }),
                },
                HomeAction::ViewHistory => next == ScreenView::Home(h2)
                    && cmd == load_command(now_secs, period_days_spec(1)),
            }
        },
        ScreenView::Session(s) => {
            let (s2, a) = s.step(key);
            match a {
                SessionAction::Nothing => next == ScreenView::Session(s2) && cmd == CommandView::Nothing,
                SessionAction::Stop => next == ScreenView::Home(0) && (cmd matches CommandView::SaveSession {
                    started_at,
                    duration,
                    label,
                } && started_at == s.started_at && label == s.tag),
            }
        },
        ScreenView::History(h) => {
            let (h2, a) = h.step(key);
            match a {
                HistoryAction::Nothing => next == ScreenView::History(h2) && cmd == CommandView::Nothing,
                HistoryAction::Stop => next == ScreenView::Home(0) && cmd == CommandView::Nothing,
                HistoryAction::Query(p) => next == ScreenView::History(h2)
                    && cmd == load_command(now_secs, period_days_spec(p)),
            }
        },
    }
}

/// A session started from the home menu with the wall clock at `now`
/// Unix seconds, then stopped by Esc, is saved as started at `now` under the
/// default label, and the menu is shown again.
pub proof fn law_start_then_stop(now: u64, start: Instant, now2: Option<u64>, start2: Instant,
    next: ScreenView, cmd: CommandView, next2: ScreenView, cmd2: CommandView)
    requires
        screen_step_at(ScreenView::Home(0), Key::Enter, Some(now), start, next, cmd),
        screen_step_at(next, Key::Esc, now2, start2, next2, cmd2),
    ensures
        cmd == CommandView::Nothing,
        next matches ScreenView::Session(s) && s.started_at == now && s.start == start,
        cmd2 matches CommandView::SaveSession { started_at, label, .. } && started_at == now
            && label == default_tag(),
        next2 == ScreenView::Home(0),
{
}

/// Dating a period from the wall clock at `now` Unix seconds: on the history
/// screen Enter loads the sessions since exactly a week (7 days), a month
/// (30 days) or a year (365 days) before `now`, as the week, the month or the
/// year is selected; the home menu's history entry loads the month. When that
/// time lies before the epoch, the command reports the clock instead.
pub proof fn law_loads_period_before_now(h: HistoryView, now: u64, start: Instant,
    next: ScreenView, cmd: CommandView)
    requires
        h.selected <= 2,
        screen_step_at(ScreenView::History(h), Key::Enter, Some(now), start, next, cmd),
    ensures
        ({
            let days: int = if h.selected == 0 { 7 } else if h.selected == 1 { 30 } else { 365 };
            &&& now >= days * 86400 && now - days * 86400 <= i64::MAX ==> (cmd matches CommandView::LoadSessions {
                since } && since + days * 86400 == now)
            &&& now < days * 86400 ==> cmd == CommandView::BeforeEpoch
            &&& next == ScreenView::History(h)
        }),
{
}

/// The home menu's history entry loads the sessions since exactly 30 days
/// before the wall clock's reading, and stays on the menu until they come.
pub proof fn law_history_opens_on_month(now: u64, start: Instant, next: ScreenView, cmd: CommandView)
    requires
        screen_step_at(ScreenView::Home(1), Key::Enter, Some(now), start, next, cmd),
    ensures
        now >= 2592000 && now - 2592000 <= i64::MAX ==> (cmd matches CommandView::LoadSessions { since }
            && since + 2592000 == now),
        now < 2592000 ==> cmd == CommandView::BeforeEpoch,
        next == ScreenView::Home(1),
{
}

/// Without a wall-clock reading no session starts and no period is loaded:
/// the command reports the clock.
pub proof fn law_no_reading_no_date(screen: ScreenView, key: Key, start: Instant, next: ScreenView, cmd: CommandView)
    requires
        screen_step_at(screen, key, None, start, next, cmd),
    ensures
        !(next is Session && screen is Home),
        !(cmd is LoadSessions),
{
}

/// Handles a key on a screen, as `screen_step_at` says of the clock
/// readings `now_secs` and `start`.
pub fn step_screen_at(screen: Screen, key: Key, now_secs: Option<u64>, start: Instant) -> (r: (Screen, Command))
    ensures
        screen_step_at(screen@, key, now_secs, start, r.0@, r.1@),
{
    match screen {
        Screen::Home(mut home) => match home.handle_key(key) {
            HomeAction::Nothing => (Screen::Home(home), Command::Nothing),
            HomeAction::StartSession => match Session::started(start, now_secs) {
                Some(session) => (Screen::Session(session), Command::Nothing),
                None => (Screen::Home(home), Command::BeforeEpoch),
            },
            HomeAction::ViewHistory => (Screen::Home(home), load_sessions(now_secs, period_days(1))),
        },
        Screen::Session(mut session) => match session.handle_key(key) {
            SessionAction::Nothing => (Screen::Session(session), Command::Nothing),
            SessionAction::Stop => {
                let (started_at, duration) = session.stop();
                let label = session.tag().clone();
                (Screen::Home(Home::new()), Command::SaveSession { started_at, duration, label })
            },
        },
        Screen::History(mut history) => match history.handle_key(key) {
            HistoryAction::Nothing => (Screen::History(history), Command::Nothing),
            HistoryAction::Stop => (Screen::Home(Home::new()), Command::Nothing),
            HistoryAction::Query(period) => {
                let cmd = load_sessions(now_secs, period_days(period));
                (Screen::History(history), cmd)
            },
        },
    }
}

/// The application's state: the screen shown and whether to quit.
pub struct App {
    exit: bool,
    current_screen: Screen,
}

/// An `App` as plain values.
pub struct AppView {
    pub exit: bool,
    pub screen: ScreenView,
}

impl View for App {
    type V = AppView;

    closed spec fn view(&self) -> AppView {
        AppView { exit: self.exit, screen: self.current_screen@ }
    }
}

impl App {
    /// A running application on the home menu.
    pub fn new() -> (r: App)
        ensures
            r@ == (AppView { exit: false, screen: ScreenView::Home(0) }),
    {
        App { exit: false, current_screen: Screen::default() }
    }

    /// Whether the application has been asked to quit.
    pub fn should_exit(&self) -> (r: bool)
        ensures
            r == self@.exit,
    {
        self.exit
    }

    /// The screen shown.
    pub fn screen(&self) -> (r: &Screen)
        ensures
            r@ == self@.screen,
    {
        &self.current_screen
    }

    /// What a key does to the application, given the clock readings
    /// `now_secs` and `start` (see `screen_step_at`): `q` on the home menu
    /// quits; any other key, and `q` on another screen, goes to the screen
    /// shown.
    pub open spec fn key_step_at(
        old_view: AppView,
        key: Key,
        now_secs: Option<u64>,
        start: Instant,
        new_view: AppView,
        cmd: CommandView,
    ) -> bool {
        if key == Key::Char('q') && old_view.screen is Home {
            new_view == (AppView { exit: true, ..old_view }) && cmd == CommandView::Nothing
        } else {
            new_view.exit == old_view.exit
                && screen_step_at(old_view.screen, key, now_secs, start, new_view.screen, cmd)
        }
    }

    /// `q` quits only from the home menu; on the session screen it saves the
    /// session and returns to the menu, on the history screen it returns to
    /// the menu, and the application keeps running.
    pub proof fn law_q_quits_or_goes_back(v: AppView, now_secs: Option<u64>, start: Instant, w: AppView, cmd: CommandView)
        requires
            App::key_step_at(v, Key::Char('q'), now_secs, start, w, cmd),
        ensures
            v.screen is Home ==> w.exit && w.screen == v.screen && cmd == CommandView::Nothing,
            v.screen is Session ==> w.exit == v.exit && w.screen == ScreenView::Home(0) && cmd is SaveSession,
            v.screen is History ==> w.exit == v.exit && w.screen == ScreenView::Home(0) && cmd == CommandView::Nothing,
    {
    }

    /// Handles a key, as `App::key_step_at` says of the clock readings
    /// `now_secs` and `start`.
    pub fn handle_key_at(&mut self, key: Key, now_secs: Option<u64>, start: Instant) -> (cmd: Command)
        ensures
            App::key_step_at(old(self)@, key, now_secs, start, final(self)@, cmd@),
    {
        if key == Key::Char('q') {
            if let Screen::Home(_) = &self.current_screen {
                self.exit = true;
                return Command::Nothing;
            }
        }
        let mut screen = Screen::default();
        std::mem::swap(&mut screen, &mut self.current_screen);
        let (next, cmd) = step_screen_at(screen, key, now_secs, start);
        self.current_screen = next;
        cmd
    }

    /// Handles a key, as `App::key_step_at` says of the two clocks' current
    /// readings.
    pub fn handle_key(&mut self, key: Key) -> (cmd: Command)
        ensures
            exists|now_secs: Option<u64>, start: Instant|
                App::key_step_at(old(self)@, key, now_secs, start, final(self)@, cmd@),
    {
        let start = instant_now();
        let now_secs = unix_time_secs();
        self.handle_key_at(key, now_secs, start)
    }

    /// Shows the sessions fetched for a `LoadSessions` command: the home menu
    /// opens the history on them, the history shows them for its period, and a
    /// running session ignores them.
    pub fn sessions_loaded(&mut self, sessions: Vec<SessionRecord>)
        ensures
            final(self)@.exit == old(self)@.exit,
            match old(self)@.screen {
                ScreenView::Home(_) => final(self)@.screen == ScreenView::History(
                    HistoryView { sessions: sessions@, selected: 1 },
                ),
                ScreenView::History(h) => final(self)@.screen == ScreenView::History(
                    HistoryView { sessions: sessions@, selected: h.selected },
                ),
                ScreenView::Session(s) => final(self)@.screen == old(self)@.screen,
            },
    {
        let mut screen = Screen::default();
        std::mem::swap(&mut screen, &mut self.current_screen);
        self.current_screen = match screen {
            Screen::Home(_) => Screen::History(History::new(sessions)),
            Screen::History(mut history) => {
                history.update(sessions);
                Screen::History(history)
            },
            Screen::Session(session) => Screen::Session(session),
        };
    }
}

} // verus!
