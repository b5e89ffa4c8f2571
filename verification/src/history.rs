//! The history screen: the sessions of a chosen period, the time they add
//! up to, and a timeline of them.

use vstd::prelude::*;
use crate::key::Key;
use crate::text::{duration_text, push_int, push_pad2, string_push, trunc_div, trunc_rem, signed};

verus! {

/// A saved session: when it started, as Unix seconds, and how many seconds
/// it ran.
#[derive(Clone, Copy, Debug, PartialEq, Eq, Structural)]
pub struct SessionRecord {
    pub started_at: i64,
    pub duration_sec: i64,
}

/// `secs` as whole hours and minutes, `"{h}h {m:02}m"`: 3725 gives
/// `"1h 02m"`. Both parts are rounded towards zero, so a negative count
/// shows negative parts.
pub fn format_duration(secs: i64) -> (r: String)
    ensures
        r@ == duration_text(secs as int),
{
    let neg = secs < 0;
    let mag: u64 = if neg { ((-(secs + 1)) as u64) + 1 } else { secs as u64 };
    assert(mag as int == if neg { -(secs as int) } else { secs as int });
    let hours = mag / 3600;
    let minutes = (mag % 3600) / 60;
    assert(trunc_div(secs as int, 3600) == signed(neg, hours as nat));
    assert(trunc_div(trunc_rem(secs as int, 3600), 60) == signed(neg, minutes as nat));
    let mut r = String::new();
    push_int(&mut r, neg, hours);
    string_push(&mut r, 'h');
    string_push(&mut r, ' ');
    push_pad2(&mut r, neg, minutes);
    string_push(&mut r, 'm');
    assert(r@ =~= duration_text(secs as int));
    r
}

/// The sum of the durations of `s`.
pub open spec fn total_duration(s: Seq<SessionRecord>) -> int
    decreases s.len(),
{
    if s.len() == 0 {
        0
    } else {
        total_duration(s.drop_last()) + s.last().duration_sec
    }
}

/// Adding the durations of `s` up one by one never leaves the range of `i64`.
pub open spec fn sums_fit(s: Seq<SessionRecord>) -> bool {
    forall|k: int| 0 <= k <= s.len() ==> i64::MIN <= #[trigger] total_duration(s.take(k)) <= i64::MAX
}

/// What the history screen asks of the application after a key.
#[derive(Clone, Copy, Debug, PartialEq, Eq, Structural)]
pub enum HistoryAction {
    Nothing,
    Stop,
    /// Reload the sessions of the period now selected: 0 the week, 1 the
    /// month, 2 the year.
    Query(u8),
}

/// The history screen as plain values.
pub struct HistoryView {
    pub sessions: Seq<SessionRecord>,
    pub selected: u8,
}

impl HistoryView {
    /// Left and Right move the selected period between the week (0), the
    /// month (1) and the year (2), stopping at either end, and ask for that
    /// period's sessions; Enter asks again for the selected period's
    /// sessions; `q` and Esc leave the screen.
    pub open spec fn step(self, key: Key) -> (HistoryView, HistoryAction) {
        match key {
            Key::Left => {
                let s: u8 = if self.selected == 0 { 0 } else { (self.selected - 1) as u8 };
                (HistoryView { selected: s, ..self }, HistoryAction::Query(s))
            },
            Key::Right => {
                let s: u8 = if self.selected + 1 < 2 { (self.selected + 1) as u8 } else { 2 };
                (HistoryView { selected: s, ..self }, HistoryAction::Query(s))
            },
            Key::Char(c) => if c == 'q' {
                (self, HistoryAction::Stop)
            } else {
                (self, HistoryAction::Nothing)
            },
            Key::Enter => (self, HistoryAction::Query(self.selected)),
            Key::Esc => (self, HistoryAction::Stop),
            _ => (self, HistoryAction::Nothing),
        }
    }
}

/// Every key keeps the selected period among the week, the month and the
/// year, and a reload always asks for the period now selected.
pub proof fn law_step_keeps_period(v: HistoryView, key: Key)
    requires
        v.selected <= 2,
    ensures
        v.step(key).0.selected <= 2,
        v.step(key).0.sessions == v.sessions,
        v.step(key).1 matches HistoryAction::Query(p) ==> p == v.step(key).0.selected,
{
}

/// Right then Left, short of the year, gives back the period before.
pub proof fn law_right_then_left(v: HistoryView)
    requires
        v.selected < 2,
    ensures
        v.step(Key::Right).0.step(Key::Left).0 == v,
        v.step(Key::Right).0.step(Key::Left).1 == HistoryAction::Query(v.selected),
{
}

/// Left then Right, past the week, gives back the period before.
pub proof fn law_left_then_right(v: HistoryView)
    requires
        0 < v.selected <= 2,
    ensures
        v.step(Key::Left).0.step(Key::Right).0 == v,
        v.step(Key::Left).0.step(Key::Right).1 == HistoryAction::Query(v.selected),
{
}

/// Left moves one period shorter and Right one period longer, stopping at
/// the week and at the year: from the week Left stays on the week, from the
/// year Right stays on the year. Both ask for the period they land on.
pub proof fn law_periods_saturate(v: HistoryView)
    requires
        v.selected <= 2,
    ensures
        v.step(Key::Left).0.selected == if v.selected == 0 { 0 } else { v.selected - 1 },
        v.step(Key::Right).0.selected == if v.selected == 2 { 2 } else { v.selected + 1 },
        v.step(Key::Left).1 == HistoryAction::Query(v.step(Key::Left).0.selected),
        v.step(Key::Right).1 == HistoryAction::Query(v.step(Key::Right).0.selected),
        v.step(Key::Enter) == (v, HistoryAction::Query(v.selected)),
        v.step(Key::Esc) == (v, HistoryAction::Stop),
        v.step(Key::Char('q')) == (v, HistoryAction::Stop),
{
}

/// The total of two runs of sessions shown together is the sum of their
/// totals, and one session adds its own duration.
pub proof fn law_total_adds_up(a: Seq<SessionRecord>, b: Seq<SessionRecord>)
    ensures
        total_duration(a + b) == total_duration(a) + total_duration(b),
        total_duration(Seq::<SessionRecord>::empty()) == 0,
    decreases b.len(),
{
    if b.len() > 0 {
        law_total_adds_up(a, b.drop_last());
        assert((a + b).drop_last() =~= a + b.drop_last());
    } else {
        assert(a + b =~= a);
    }
}

/// The history screen.
pub struct History {
    sessions: Vec<SessionRecord>,
    selected: u8,
}

impl View for History {
    type V = HistoryView;

    closed spec fn view(&self) -> HistoryView {
        HistoryView { sessions: self.sessions@, selected: self.selected }
    }
}

impl History {
    #[verifier::type_invariant]
    spec fn period_in_range(self) -> bool {
        self.selected <= 2
    }

    /// A history screen over `sessions`, showing the month.
    pub fn new(sessions: Vec<SessionRecord>) -> (r: History)
        ensures
            r@ == (HistoryView { sessions: sessions@, selected: 1 }),
    {
        History { selected: 1, sessions }
    }

    /// Replaces the sessions shown; the selected period stays.
    pub fn update(&mut self, sessions: Vec<SessionRecord>)
        ensures
            final(self)@ == (HistoryView { sessions: sessions@, selected: old(self)@.selected }),
            final(self)@.selected <= 2,
    {
        proof { use_type_invariant(&*self); }
        self.sessions = sessions;
    }

    /// The sessions shown.
    pub fn sessions(&self) -> (r: &Vec<SessionRecord>)
        ensures
            r@ == self@.sessions,
    {
        &self.sessions
    }

    /// The selected period: 0 the week, 1 the month, 2 the year.
    pub fn selected(&self) -> (r: u8)
        ensures
            r == self@.selected,
            r <= 2,
    {
        proof { use_type_invariant(self); }
        self.selected
    }

    /// Moves the selected period or leaves, as `HistoryView::step` says.
    pub fn handle_key(&mut self, key: Key) -> (a: HistoryAction)
        ensures
            (final(self)@, a) == old(self)@.step(key),
            final(self)@.selected <= 2,
    {
        proof { use_type_invariant(&*self); }
        match key {
            Key::Left => {
                self.selected = if self.selected == 0 { 0 } else { self.selected - 1 };
                HistoryAction::Query(self.selected)
            },
            Key::Right => {
                self.selected = if self.selected + 1 < 2 { self.selected + 1 } else { 2 };
                HistoryAction::Query(self.selected)
            },
            Key::Char(c) => if c == 'q' {
                HistoryAction::Stop
            } else {
                HistoryAction::Nothing
            },
            Key::Enter => HistoryAction::Query(self.selected),
            Key::Esc => HistoryAction::Stop,
            _ => HistoryAction::Nothing,
        }
    }

    /// The time the sessions shown add up to, in seconds.
    pub fn get_total_worked(&self) -> (r: i64)
        requires
            sums_fit(self@.sessions),
        ensures
            r == total_duration(self@.sessions),
    {
        let mut total: i64 = 0;
        let mut i: usize = 0;
        while i < self.sessions.len()
            invariant
                i <= self.sessions@.len(),
                sums_fit(self.sessions@),
                total == total_duration(self.sessions@.take(i as int)),
            decreases self.sessions@.len() - i,
        {
            assert(self.sessions@.take(i + 1).drop_last() =~= self.sessions@.take(i as int));
            let ghost next = total_duration(self.sessions@.take(i + 1));
            assert(i64::MIN <= next <= i64::MAX);
            total = total + self.sessions[i].duration_sec;
            i = i + 1;
        }
        assert(self.sessions@.take(i as int) =~= self.sessions@);
        total
    }

    /// How far back the timeline reaches, as its axis labels it.
    pub fn period_label(&self) -> (r: &'static str)
        ensures
            self@.selected == 0 ==> r@ == "a week ago"@,
            self@.selected == 1 ==> r@ == "a month ago"@,
            self@.selected >= 2 ==> r@ == "a year ago"@,
    {
        match self.selected {
            0 => "a week ago",
            1 => "a month ago",
            _ => "a year ago",
        }
    }
}

} // verus!
