use crate::command::{Command, Value};
use crate::geom::Rect;
use crate::input::{Key, KeyEvent};
use crate::nav::{wrap_next, wrap_next_spec, wrap_prev, wrap_prev_spec};
use vstd::prelude::*;

verus! {

/// The largest value of a percentage widget.
pub const PERCENT_MAX: i32 = 100;

/// The value widget of one entry of a settings list.
#[derive(Clone, Debug)]
pub enum Widget {
    /// A percentage, stepped by one and saturating at 0 and 100.
    Percentage(i32),
    /// A flag, toggled.
    Bool(bool),
    /// Read-only text.
    Label(String),
}

impl Widget {
    /// The widget can be edited in place.
    pub open spec fn editable(self) -> bool {
        !(self is Label)
    }

    /// The widget after one edit gesture; `up` is the right key.
    pub open spec fn gestured(self, up: bool) -> Widget {
        match self {
            Widget::Percentage(v) => Widget::Percentage(percent_step(v as int, up) as i32),
            Widget::Bool(b) => Widget::Bool(!b),
            Widget::Label(s) => Widget::Label(s),
        }
    }

    /// The value that a change of the widget reports.
    pub open spec fn value(self) -> Value {
        match self {
            Widget::Percentage(v) => Value::Int(v),
            Widget::Bool(b) => Value::Bool(b),
            Widget::Label(_) => Value::Int(0),
        }
    }
}

/// A percentage stepped by one, saturating at 0 and 100: a value already at
/// or past the bound in the direction of the step stays as it is.
pub open spec fn percent_step(v: int, up: bool) -> int {
    if up {
        if v >= PERCENT_MAX {
            v
        } else {
            v + 1
        }
    } else {
        if v <= 0 {
            v
        } else {
            v - 1
        }
    }
}

/// Steps a percentage by one, saturating at 0 and 100.
pub fn step_percent(v: i32, up: bool) -> (r: i32)
    ensures
        r == percent_step(v as int, up),
{
    if up {
        if v >= PERCENT_MAX {
            v
        } else {
            v + 1
        }
    } else {
        if v <= 0 {
            v
        } else {
            v - 1
        }
    }
}

/// What a settings list is, apart from its labels and placement.
pub struct ListModel {
    pub values: Seq<Widget>,
    pub selected: int,
    pub editing: bool,
    pub dirty: bool,
}

impl ListModel {
    pub open spec fn wf(self) -> bool {
        &&& 0 <= self.selected < self.values.len()
        &&& self.editing ==> self.values[self.selected].editable()
    }

    /// The list, whether the event was consumed, and the commands pushed for
    /// the parent, after `e`.
    pub open spec fn stepped(self, e: KeyEvent) -> (ListModel, bool, Seq<Command>) {
        let n = self.values.len() as int;
        let w = self.values[self.selected];
        if !self.editing {
            if e.pressed_or_repeated(Key::Up) {
                (
                    ListModel { selected: wrap_prev_spec(self.selected, n), dirty: true, ..self },
                    true,
                    seq![],
                )
            } else if e.pressed_or_repeated(Key::Down) {
                (
                    ListModel { selected: wrap_next_spec(self.selected, n), dirty: true, ..self },
                    true,
                    seq![],
                )
            } else if e == KeyEvent::Pressed(Key::A) && w.editable() {
                (ListModel { editing: true, dirty: true, ..self }, true, seq![])
            } else {
                (self, false, seq![])
            }
        } else if e.pressed_or_repeated(Key::Left) || e.pressed_or_repeated(Key::Right) {
            let w2 = w.gestured(e.pressed_or_repeated(Key::Right));
            if w2 == w {
                (self, true, seq![])
            } else {
                (
                    ListModel { values: self.values.update(self.selected, w2), dirty: true, ..self },
                    true,
                    seq![Command::ValueChanged(self.selected as usize, w2.value())],
                )
            }
        } else if e == KeyEvent::Pressed(Key::A) || e == KeyEvent::Pressed(Key::B) {
            (ListModel { editing: false, dirty: true, ..self }, true, seq![])
        } else {
            (self, false, seq![])
        }
    }
}

/// A list of labelled value widgets with a selected entry, browsed with up and
/// down and edited in place.
pub struct SettingsList {
    pub rect: Rect,
    pub labels: Vec<String>,
    pub values: Vec<Widget>,
    pub selected: usize,
    pub editing: bool,
    /// The list has changed since it was last drawn.
    pub dirty: bool,
    pub row_height: u32,
}

impl View for SettingsList {
    type V = ListModel;

    open spec fn view(&self) -> ListModel {
        ListModel {
            values: self.values@,
            selected: self.selected as int,
            editing: self.editing,
            dirty: self.dirty,
        }
    }
}

impl SettingsList {
    pub open spec fn wf(&self) -> bool {
        &&& self@.wf()
        &&& self.labels@.len() == self.values@.len()
    }

    /// A list of the entries, browsing, with the first selected.
    pub fn new(rect: Rect, labels: Vec<String>, values: Vec<Widget>, row_height: u32) -> (l:
        SettingsList)
        requires
            labels@.len() == values@.len(),
            values@.len() > 0,
        ensures
            l.wf(),
            l@ == (ListModel { values: values@, selected: 0, editing: false, dirty: true }),
            l.labels@ == labels@,
            l.rect == rect,
            l.row_height == row_height,
    {
        SettingsList { rect, labels, values, selected: 0, editing: false, dirty: true, row_height }
    }

    /// Selects the entry at `index`, if there is one.
    pub fn select(&mut self, index: usize)
        requires
            old(self).wf(),
            !old(self).editing,
        ensures
            final(self).wf(),
            final(self)@ == (if index < old(self).values@.len() {
                ListModel { selected: index as int, dirty: true, ..old(self)@ }
            } else {
                old(self)@
            }),
            final(self).labels@ == old(self).labels@,
            final(self).rect == old(self).rect,
            final(self).row_height == old(self).row_height,
    {
        if index < self.values.len() {
            self.selected = index;
            self.dirty = true;
        }
    }

    pub fn selected(&self) -> (i: usize)
        ensures
            i == self.selected,
    {
        self.selected
    }

    pub fn should_draw(&self) -> (b: bool)
        ensures
            b == self.dirty,
    {
        self.dirty
    }

    pub fn set_should_draw(&mut self)
        ensures
            *final(self) == (SettingsList { dirty: true, ..*old(self) }),
    {
        self.dirty = true;
    }

    /// Records that the list has been drawn.
    pub fn mark_drawn(&mut self)
        ensures
            *final(self) == (SettingsList { dirty: false, ..*old(self) }),
    {
        self.dirty = false;
    }

    /// Handles one key event, pushing a `ValueChanged` onto `bubble` when an
    /// edit changes the selected value. Returns whether the event was
    /// consumed.
    pub fn handle_key_event(&mut self, event: KeyEvent, bubble: &mut Vec<Command>) -> (handled:
        bool)
        requires
            old(self).wf(),
        ensures
            final(self).wf(),
            (final(self)@, handled, final(bubble)@.skip(old(bubble)@.len() as int))
                == old(self)@.stepped(event),
            final(bubble)@.len() >= old(bubble)@.len(),
            final(bubble)@.take(old(bubble)@.len() as int) == old(bubble)@,
            final(self).labels@ == old(self).labels@,
            final(self).rect == old(self).rect,
            final(self).row_height == old(self).row_height,
    {
        let n = self.values.len();
        let ghost b0 = bubble@;
        if !self.editing {
            match event {
                KeyEvent::Pressed(Key::Up) | KeyEvent::Autorepeat(Key::Up) => {
                    self.selected = wrap_prev(self.selected, n);
                    self.dirty = true;
                    assert(bubble@.skip(b0.len() as int) =~= seq![]);
                    true
                },
                KeyEvent::Pressed(Key::Down) | KeyEvent::Autorepeat(Key::Down) => {
                    self.selected = wrap_next(self.selected, n);
                    self.dirty = true;
                    assert(bubble@.skip(b0.len() as int) =~= seq![]);
                    true
                },
                KeyEvent::Pressed(Key::A) => {
                    assert(bubble@.skip(b0.len() as int) =~= seq![]);
                    match &self.values[self.selected] {
                        Widget::Label(_) => false,
                        _ => {
                            self.editing = true;
                            self.dirty = true;
                            true
                        },
                    }
                },
                _ => {
                    assert(bubble@.skip(b0.len() as int) =~= seq![]);
                    false
                },
            }
        } else {
            match event {
                KeyEvent::Pressed(Key::Left) | KeyEvent::Autorepeat(Key::Left)
                | KeyEvent::Pressed(Key::Right) | KeyEvent::Autorepeat(Key::Right) => {
                    let up = match event {
                        KeyEvent::Pressed(Key::Right) | KeyEvent::Autorepeat(Key::Right) => true,
                        _ => false,
                    };
                    let i = self.selected;
                    let changed = match &self.values[i] {
                        Widget::Percentage(v) => {
                            let v2 = step_percent(*v, up);
                            if v2 != *v {
                                Some((Widget::Percentage(v2), Value::Int(v2)))
                            } else {
                                None
                            }
                        },
                        Widget::Bool(b) => Some((Widget::Bool(!*b), Value::Bool(!*b))),
                        Widget::Label(_) => None,
                    };
                    match changed {
                        Some((w2, val)) => {
                            self.values[i] = w2;
                            self.dirty = true;
                            bubble.push(Command::ValueChanged(i, val));
                            assert(bubble@.skip(b0.len() as int) =~= seq![
                                Command::ValueChanged(i, val),
                            ]);
                        },
                        None => {
                            assert(bubble@.skip(b0.len() as int) =~= seq![]);
                        },
                    }
                    true
                },
                KeyEvent::Pressed(Key::A) | KeyEvent::Pressed(Key::B) => {
                    self.editing = false;
                    self.dirty = true;
                    assert(bubble@.skip(b0.len() as int) =~= seq![]);
                    true
                },
                _ => {
                    assert(bubble@.skip(b0.len() as int) =~= seq![]);
                    false
                },
            }
        }
    }
}

/// Moving the selection keeps it within the list and wraps at both ends, and
/// every event keeps the list well formed.
pub proof fn lemma_list_selection_wraps(l: ListModel, e: KeyEvent)
    requires
        l.wf(),
        !l.editing,
    ensures
        l.stepped(e).0.wf(),
        0 <= l.stepped(e).0.selected < l.values.len(),
        l.selected == 0 && e.pressed_or_repeated(Key::Up) ==> l.stepped(e).0.selected
            == l.values.len() - 1,
        l.selected == l.values.len() - 1 && e.pressed_or_repeated(Key::Down)
            ==> l.stepped(e).0.selected == 0,
{
    crate::nav::lemma_wrap_bounds(l.selected, l.values.len() as int);
}

/// A step past either bound of a percentage leaves it as it is and reports
/// nothing.
pub proof fn lemma_percent_saturates(l: ListModel, up: bool)
    requires
        l.wf(),
        l.editing,
        l.values[l.selected] == Widget::Percentage(if up { PERCENT_MAX } else { 0 }),
    ensures
        ({
            let e = KeyEvent::Pressed(if up { Key::Right } else { Key::Left });
            &&& l.stepped(e).0 == l
            &&& l.stepped(e).1
            &&& l.stepped(e).2 == Seq::<Command>::empty()
        }),
{
}

} // verus!
