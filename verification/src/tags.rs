//! The tag manager: a list of labels with how many sessions carry each,
//! where a label can be renamed in place or deleted.

use vstd::prelude::*;
use crate::key::Key;
use crate::text::{decimal, push_decimal, string_pop, string_push, str_trim, trim_view};

verus! {

/// What the tag manager asks of the application after a key.
pub enum TagsAction {
    Nothing,
    Stop,
    /// Delete the label.
    Delete(String),
    /// Give the sessions labelled `old` the label `new`.
    Rename { old: String, new: String },
}

/// A `TagsAction` as plain values.
pub enum TagsActionView {
    Nothing,
    Stop,
    Delete(Seq<char>),
    Rename { old: Seq<char>, new: Seq<char> },
}

impl View for TagsAction {
    type V = TagsActionView;

    open spec fn view(&self) -> TagsActionView {
        match self {
            TagsAction::Nothing => TagsActionView::Nothing,
            TagsAction::Stop => TagsActionView::Stop,
            TagsAction::Delete(t) => TagsActionView::Delete(t@),
            TagsAction::Rename { old, new } => TagsActionView::Rename { old: old@, new: new@ },
        }
    }
}

/// The tag manager as plain values.
#[verifier::ext_equal]
pub struct TagsView {
    /// Each label with its number of sessions.
    pub tags: Seq<(Seq<char>, usize)>,
    /// The position of the label with the focus.
    pub selected: usize,
    /// Whether the focused label is being renamed.
    pub editing: bool,
    /// The new name typed so far.
    pub edit_buf: Seq<char>,
}

impl TagsView {
    /// What every reachable state keeps: while there are labels the focus is
    /// on one of them, a rename is only under way on an existing label, and
    /// the focus can always move one further.
    pub open spec fn valid(self) -> bool {
        &&& self.selected < usize::MAX
        &&& self.tags.len() <= usize::MAX
        &&& self.tags.len() > 0 ==> self.selected < self.tags.len()
        &&& self.editing ==> self.tags.len() > 0
        &&& !self.editing ==> self.edit_buf.len() == 0
    }

    /// The name of the label with the focus.
    pub open spec fn focused_name(self) -> Seq<char> {
        self.tags[self.selected as int].0
    }

    /// Leaves renaming: the typed name is dropped.
    pub open spec fn leave_editing(self) -> TagsView {
        TagsView { editing: false, edit_buf: Seq::empty(), ..self }
    }

    /// A key while a label is being renamed: characters are typed, Backspace
    /// erases the last one, Esc cancels, and Enter confirms. A confirmed name
    /// is trimmed of white space; an empty one cancels, the unchanged name
    /// asks for nothing, and any other asks for the rename.
    pub open spec fn edit_step(self, key: Key) -> (TagsView, TagsActionView) {
        match key {
            Key::Char(c) => (TagsView { edit_buf: self.edit_buf.push(c), ..self }, TagsActionView::Nothing),
            Key::Backspace => {
                let buf = if self.edit_buf.len() > 0 { self.edit_buf.drop_last() } else { self.edit_buf };
                (TagsView { edit_buf: buf, ..self }, TagsActionView::Nothing)
            },
            Key::Enter => {
                let new = trim_view(self.edit_buf);
                if new.len() == 0 {
                    (self.leave_editing(), TagsActionView::Nothing)
                } else if new == self.focused_name() {
                    (self.leave_editing(), TagsActionView::Nothing)
                } else {
                    (self.leave_editing(), TagsActionView::Rename { old: self.focused_name(), new })
                }
            },
            Key::Esc => (self.leave_editing(), TagsActionView::Nothing),
            _ => (self, TagsActionView::Nothing),
        }
    }

    /// A key while browsing: Up and Down move the focus within the list,
    /// Enter starts renaming the focused label with its name typed in, `d`
    /// asks to delete it, and Esc or `q` leave.
    pub open spec fn browse_step(self, key: Key) -> (TagsView, TagsActionView) {
        match key {
            Key::Up => {
                let s: usize = if self.selected > 0 { (self.selected - 1) as usize } else { self.selected };
                (TagsView { selected: s, ..self }, TagsActionView::Nothing)
            },
            Key::Down => {
                let s: usize = if self.selected + 1 < self.tags.len() { (self.selected + 1) as usize } else { self.selected };
                (TagsView { selected: s, ..self }, TagsActionView::Nothing)
            },
            Key::Enter => if self.tags.len() > 0 {
                (TagsView { edit_buf: self.focused_name(), editing: true, ..self }, TagsActionView::Nothing)
            } else {
                (self, TagsActionView::Nothing)
            },
            Key::Char(c) => if c == 'd' || c == 'D' {
                if self.tags.len() > 0 {
                    (self, TagsActionView::Delete(self.focused_name()))
                } else {
                    (self, TagsActionView::Nothing)
                }
            } else if c == 'q' || c == 'Q' {
                (self, TagsActionView::Stop)
            } else {
                (self, TagsActionView::Nothing)
            },
            Key::Esc => (self, TagsActionView::Stop),
            _ => (self, TagsActionView::Nothing),
        }
    }

    /// What a key does to the tag manager and asks of the application.
    pub open spec fn step(self, key: Key) -> (TagsView, TagsActionView) {
        if self.editing { self.edit_step(key) } else { self.browse_step(key) }
    }

    /// The line shown for the label at `i`: its name, or the name being typed
    /// with a cursor when it is being renamed, and its number of sessions.
    pub open spec fn row_text(self, i: int) -> Seq<char> {
        let shown = if i == self.selected && self.editing {
            self.edit_buf + seq!['_']
        } else {
            self.tags[i].0
        };
        seq![' ', ' '] + shown + seq![' ', '('] + decimal(self.tags[i].1 as nat) + " sessions)"@
    }
}

/// Every key keeps the tag manager in a reachable state.
pub proof fn law_step_keeps_valid(v: TagsView, key: Key)
    requires
        v.valid(),
    ensures
        v.step(key).0.valid(),
{
}

/// Typing a character while renaming and erasing it again gives back the
/// state before, and neither key asks for anything.
pub proof fn law_type_then_erase(v: TagsView, c: char)
    requires
        v.editing,
    ensures
        v.step(Key::Char(c)).1 == TagsActionView::Nothing,
        v.step(Key::Char(c)).0.step(Key::Backspace) == (v, TagsActionView::Nothing),
{
    assert(v.edit_buf.push(c).drop_last() =~= v.edit_buf);
}

/// Starting a rename and cancelling it gives back the state before, and
/// neither key asks for anything.
pub proof fn law_open_then_cancel(v: TagsView)
    requires
        v.valid(),
        !v.editing,
        v.tags.len() > 0,
    ensures
        v.step(Key::Enter).1 == TagsActionView::Nothing,
        v.step(Key::Enter).0.step(Key::Esc) == (v, TagsActionView::Nothing),
{
    assert(v.step(Key::Enter).0.step(Key::Esc).0 =~= v);
}

/// Starting a rename and confirming it at once renames nothing, when the
/// label has no leading or trailing white space; the state is as before.
pub proof fn law_open_then_confirm(v: TagsView)
    requires
        v.valid(),
        !v.editing,
        v.tags.len() > 0,
        trim_view(v.focused_name()) == v.focused_name(),
    ensures
        v.step(Key::Enter).0.step(Key::Enter) == (v, TagsActionView::Nothing),
{
    assert(v.step(Key::Enter).0.step(Key::Enter).0 =~= v);
}

/// Down then Up, with a label below the focus, gives back the state before.
pub proof fn law_down_then_up(v: TagsView)
    requires
        v.valid(),
        !v.editing,
        v.selected + 1 < v.tags.len(),
    ensures
        v.step(Key::Down).0.step(Key::Up) == (v, TagsActionView::Nothing),
{
    assert(v.step(Key::Down).0.step(Key::Up).0 =~= v);
}

/// Up then Down, with a label above the focus, gives back the state before.
pub proof fn law_up_then_down(v: TagsView)
    requires
        v.valid(),
        !v.editing,
        v.tags.len() > 0,
        v.selected > 0,
    ensures
        v.step(Key::Up).0.step(Key::Down) == (v, TagsActionView::Nothing),
{
    assert(v.step(Key::Up).0.step(Key::Down).0 =~= v);
}

/// A rename is asked for only by Enter while renaming, of the focused label,
/// to the typed name trimmed, which is then neither empty nor the old name;
/// afterwards the manager is back to browsing.
pub proof fn law_rename_shape(v: TagsView, key: Key)
    requires
        v.valid(),
    ensures
        v.step(key).1 matches TagsActionView::Rename { old, new } ==> {
            &&& v.editing
            &&& key == Key::Enter
            &&& old == v.focused_name()
            &&& new == trim_view(v.edit_buf)
            &&& new.len() > 0
            &&& new != old
            &&& !v.step(key).0.editing
        },
{
}

/// A deletion is asked for only by `d` or `D` while browsing a non-empty
/// list, of the focused label, and leaves the manager as it was.
pub proof fn law_delete_shape(v: TagsView, key: Key)
    requires
        v.valid(),
    ensures
        v.step(key).1 matches TagsActionView::Delete(name) ==> {
            &&& !v.editing
            &&& (key == Key::Char('d') || key == Key::Char('D'))
            &&& v.tags.len() > 0
            &&& name == v.focused_name()
            &&& v.step(key).0 == v
        },
{
}

/// Confirming a rename: with the typed name trimmed of white space, a
/// non-empty name that differs from the focused label asks to rename that
/// label to it; a blank name or the label's own name asks for nothing. Either
/// way the manager goes back to browsing the same labels with the same focus.
pub proof fn law_confirm_rename(v: TagsView)
    requires
        v.valid(),
        v.editing,
    ensures
        ({
            let new = trim_view(v.edit_buf);
            let (after, action) = v.step(Key::Enter);
            &&& new.len() > 0 && new != v.focused_name() ==> action == TagsActionView::Rename {
                old: v.focused_name(),
                new,
            }
            &&& new.len() == 0 || new == v.focused_name() ==> action == TagsActionView::Nothing
            &&& !after.editing
            &&& after.edit_buf.len() == 0
            &&& after.tags == v.tags
            &&& after.selected == v.selected
        }),
{
}

/// Starting a rename types the focused label's current name into the
/// buffer, keeps the list and the focus, and asks for nothing.
pub proof fn law_rename_starts_from_name(v: TagsView)
    requires
        v.valid(),
        !v.editing,
        v.tags.len() > 0,
    ensures
        v.step(Key::Enter).0.editing,
        v.step(Key::Enter).0.edit_buf == v.tags[v.selected as int].0,
        v.step(Key::Enter).0.tags == v.tags,
        v.step(Key::Enter).0.selected == v.selected,
        v.step(Key::Enter).1 == TagsActionView::Nothing,
{
}

/// While renaming, a character key appends exactly that character to the
/// typed name, whatever it is, and asks for nothing.
pub proof fn law_typing_appends(v: TagsView, c: char)
    requires
        v.editing,
    ensures
        v.step(Key::Char(c)).0.edit_buf == v.edit_buf + seq![c],
        v.step(Key::Char(c)).0.editing,
        v.step(Key::Char(c)).0.tags == v.tags,
        v.step(Key::Char(c)).0.selected == v.selected,
        v.step(Key::Char(c)).1 == TagsActionView::Nothing,
{
    assert(v.edit_buf.push(c) =~= v.edit_buf + seq![c]);
}

/// Browsing, Up and Down move the focus by one label and stop at the ends
/// of the list: the focus after is the one before, one up or one down, kept
/// within the list.
pub proof fn law_focus_moves_by_one(v: TagsView)
    requires
        v.valid(),
        !v.editing,
        v.tags.len() > 0,
    ensures
        v.step(Key::Up).0.selected == if v.selected == 0 { 0 } else { v.selected - 1 },
        v.step(Key::Down).0.selected == if v.selected + 1 == v.tags.len() { v.selected as int } else { v.selected + 1 },
        v.step(Key::Up).0.tags == v.tags,
        v.step(Key::Down).0.tags == v.tags,
{
}

/// A label's name and its number of sessions, as plain values.
pub open spec fn tag_view(t: (String, usize)) -> (Seq<char>, usize) {
    (t.0@, t.1)
}

/// The tag manager screen.
pub struct Tags {
    tags: Vec<(String, usize)>,
    selected: usize,
    editing: bool,
    edit_buf: String,
}

impl View for Tags {
    type V = TagsView;

    closed spec fn view(&self) -> TagsView {
        TagsView {
            tags: self.tags@.map_values(|t: (String, usize)| tag_view(t)),
            selected: self.selected,
            editing: self.editing,
            edit_buf: self.edit_buf@,
        }
    }
}

impl Tags {
    #[verifier::type_invariant]
    spec fn reachable(self) -> bool {
        &&& self.selected < usize::MAX
        &&& self.tags@.len() > 0 ==> self.selected < self.tags@.len()
        &&& self.editing ==> self.tags@.len() > 0
        &&& !self.editing ==> self.edit_buf@.len() == 0
    }

    /// A tag manager over `tags`, focused on the first, not renaming.
    pub fn new(tags: Vec<(String, usize)>) -> (r: Tags)
        ensures
            r@ == (TagsView {
                tags: tags@.map_values(|t: (String, usize)| tag_view(t)),
                selected: 0,
                editing: false,
                edit_buf: Seq::empty(),
            }),
            r@.valid(),
    {
        proof { assert(tags@.len() == tags.len()); }
        Tags { tags, selected: 0, editing: false, edit_buf: String::new() }
    }

    /// Whether a label is being renamed.
    pub fn is_editing(&self) -> (r: bool)
        ensures
            r == self@.editing,
    {
        self.editing
    }

    /// The labels shown, each with its number of sessions.
    pub fn tags(&self) -> (r: &Vec<(String, usize)>)
        ensures
            r@.map_values(|t: (String, usize)| tag_view(t)) == self@.tags,
    {
        &self.tags
    }

    /// The position of the label with the focus.
    pub fn selected(&self) -> (r: usize)
        ensures
            r == self@.selected,
    {
        self.selected
    }

    /// Replaces the labels shown. The focus stays where it was, or moves to
    /// the last label when the list has become shorter than that; a rename
    /// under way is dropped.
    pub fn update(&mut self, tags: Vec<(String, usize)>)
        ensures
            final(self)@ == (TagsView {
                tags: tags@.map_values(|t: (String, usize)| tag_view(t)),
                selected: if old(self)@.selected >= tags@.len() && tags@.len() > 0 {
                    (tags@.len() - 1) as usize
                } else {
                    old(self)@.selected
                },
                editing: false,
                edit_buf: Seq::empty(),
            }),
            final(self)@.valid(),
    {
        proof { use_type_invariant(&*self); }
        let n = tags.len();
        let selected = if self.selected >= n && n > 0 { n - 1 } else { self.selected };
        *self = Tags { tags, selected, editing: false, edit_buf: String::new() };
    }

    /// The name of the label with the focus.
    fn focused_name(&self) -> (r: String)
        requires
            self@.tags.len() > 0,
            self@.valid(),
        ensures
            r@ == self@.focused_name(),
    {
        self.tags[self.selected].0.clone()
    }

    /// Handles a key, as `TagsView::step` says.
    pub fn handle_key(&mut self, key: Key) -> (a: TagsAction)
        ensures
            (final(self)@, a@) == old(self)@.step(key),
            final(self)@.valid(),
    {
        proof { use_type_invariant(&*self); }
        let count = self.tags.len();
        if self.editing {
            match key {
                Key::Char(c) => {
                    let mut buf = self.edit_buf.clone();
                    string_push(&mut buf, c);
                    self.edit_buf = buf;
                    TagsAction::Nothing
                },
                Key::Backspace => {
                    let mut buf = self.edit_buf.clone();
                    string_pop(&mut buf);
                    self.edit_buf = buf;
                    TagsAction::Nothing
                },
                Key::Enter => {
                    let new = str_trim(self.edit_buf.as_str()).to_owned();
                    if new.as_str().is_empty() {
                        self.edit_buf = String::new();
                        self.editing = false;
                        return TagsAction::Nothing;
                    }
                    let old = self.focused_name();
                    self.edit_buf = String::new();
                    self.editing = false;
                    if new == old {
                        TagsAction::Nothing
                    } else {
                        TagsAction::Rename { old, new }
                    }
                },
                Key::Esc => {
                    self.edit_buf = String::new();
                    self.editing = false;
                    TagsAction::Nothing
                },
                _ => TagsAction::Nothing,
            }
        } else {
            match key {
                Key::Up => {
                    if self.selected > 0 {
                        self.selected = self.selected - 1;
                    }
                    TagsAction::Nothing
                },
                Key::Down => {
                    if self.selected + 1 < count {
                        self.selected = self.selected + 1;
                    }
                    TagsAction::Nothing
                },
                Key::Enter => {
                    if count > 0 {
                        let name = self.focused_name();
                        self.editing = true;
                        self.edit_buf = name;
                    }
                    TagsAction::Nothing
                },
                Key::Char(c) => if c == 'd' || c == 'D' {
                    if count > 0 {
                        TagsAction::Delete(self.focused_name())
                    } else {
                        TagsAction::Nothing
                    }
                } else if c == 'q' || c == 'Q' {
                    TagsAction::Stop
                } else {
                    TagsAction::Nothing
                },
                Key::Esc => TagsAction::Stop,
                _ => TagsAction::Nothing,
            }
        }
    }

    /// The line shown for the label at `i`, as `TagsView::row_text` says:
    /// `"  work (3 sessions)"`, or `"  wor_ (3 sessions)"` while it is being
    /// renamed and `"wor"` has been typed.
    pub fn row_text(&self, i: usize) -> (r: String)
        requires
            i < self@.tags.len(),
        ensures
            r@ == self@.row_text(i as int),
    {
        let mut r = String::new();
        string_push(&mut r, ' ');
        string_push(&mut r, ' ');
        if i == self.selected && self.editing {
            r.append(self.edit_buf.as_str());
            string_push(&mut r, '_');
        } else {
            r.append(self.tags[i].0.as_str());
        }
        string_push(&mut r, ' ');
        string_push(&mut r, '(');
        push_decimal(&mut r, self.tags[i].1 as u64);
        r.append(" sessions)");
        assert(r@ =~= self@.row_text(i as int));
        r
    }
}

} // verus!
