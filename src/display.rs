use crate::command::{Command, DisplaySettings, Value};
use crate::geom::{Point, Rect};
use crate::input::{Key, KeyEvent};
use crate::list::{ListModel, SettingsList, Widget};
use vstd::prelude::*;

verus! {

/// The position of the read-only screen resolution entry.
pub const RESOLUTION_ENTRY: usize = 4;

/// What a settings view keeps of itself when it is closed, to be restored
/// when it opens again.
#[derive(Clone, Copy, Debug, PartialEq, Eq, Structural)]
pub struct ChildState {
    pub selected: usize,
}

/// The decimal digits of `n`, most significant first.
pub open spec fn decimal(n: nat) -> Seq<char>
    decreases n,
{
    if n < 10 {
        seq![(n + '0' as nat) as char]
    } else {
        decimal(n / 10).push(((n % 10) + '0' as nat) as char)
    }
}

/// The text of a screen resolution: `<width>x<height>` in decimal.
pub open spec fn resolution_spec(w: nat, h: nat) -> Seq<char> {
    decimal(w) + seq!['x'] + decimal(h)
}

/// Relies on std's `String::from_iter` over chars: the string holds the
/// characters in order.
#[verifier::external_body]
fn string_of_chars(cs: &Vec<char>) -> (s: String)
    ensures
        s@ == cs@,
{
    String::from_iter(cs.iter())
}

/// Appends the decimal digits of `n` to `out`.
fn push_decimal(n: u32, out: &mut Vec<char>)
    ensures
        final(out)@ == old(out)@ + decimal(n as nat),
    decreases n,
{
    if n >= 10 {
        push_decimal(n / 10, out);
    }
    let d: u8 = (n % 10) as u8;
    out.push((d + 48) as char);
    proof {
        if n >= 10 {
            assert(final(out)@ =~= old(out)@ + decimal(n as nat));
        } else {
            assert(final(out)@ =~= old(out)@ + decimal(n as nat));
        }
    }
}

/// The text of a screen resolution of `w` by `h` pixels.
pub fn resolution_text(w: u32, h: u32) -> (s: String)
    ensures
        s@ == resolution_spec(w as nat, h as nat),
{
    let mut cs: Vec<char> = Vec::new();
    push_decimal(w, &mut cs);
    cs.push('x');
    push_decimal(h, &mut cs);
    proof {
        assert(cs@ =~= resolution_spec(w as nat, h as nat));
    }
    string_of_chars(&cs)
}

/// The field at entry `k`: luminance, hue, saturation, then contrast.
pub open spec fn field(s: DisplaySettings, k: int) -> u8 {
    if k == 0 {
        s.luminance
    } else if k == 1 {
        s.hue
    } else if k == 2 {
        s.saturation
    } else {
        s.contrast
    }
}

/// The settings with the field at entry `k` (luminance, hue, saturation,
/// contrast) set to `v`, if `k` names one and the field does not already
/// hold `v`.
pub open spec fn with_field(s: DisplaySettings, k: int, v: u8) -> Option<DisplaySettings> {
    if !(0 <= k < 4) || field(s, k) == v {
        None
    } else if k == 0 {
        Some(DisplaySettings { luminance: v, ..s })
    } else if k == 1 {
        Some(DisplaySettings { hue: v, ..s })
    } else if k == 2 {
        Some(DisplaySettings { saturation: v, ..s })
    } else if k == 3 {
        Some(DisplaySettings { contrast: v, ..s })
    } else {
        None
    }
}

/// The settings after one bubbled command, if it changes them: a change of
/// an integer value at a settings entry to a value it does not hold yet.
pub open spec fn applied(s: DisplaySettings, c: Command) -> Option<DisplaySettings> {
    match c {
        Command::ValueChanged(k, Value::Int(v)) => with_field(s, k as int, v as u8),
        _ => None,
    }
}

/// The settings after the bubbled commands in order, and the snapshots to
/// persist, one after each change.
pub open spec fn apply_changes(s: DisplaySettings, cmds: Seq<Command>) -> (DisplaySettings, Seq<Command>)
    decreases cmds.len(),
{
    if cmds.len() == 0 {
        (s, seq![])
    } else {
        let (s1, out) = apply_changes(s, cmds.drop_last());
        match applied(s1, cmds.last()) {
            Some(s2) => (s2, out.push(Command::SaveDisplaySettings(s2))),
            None => (s1, out),
        }
    }
}

/// What one redraw of the display view draws.
#[derive(Clone, Copy, Debug, PartialEq, Eq, Structural)]
pub struct DisplayDrawPlan {
    pub list: bool,
    /// Where the restart notice is anchored, at its right edge, if it is drawn.
    pub restart_label: Option<Point>,
    /// The region to clear for the button hints, if they are drawn.
    pub button_hints: Option<Rect>,
    /// Where the button hints are anchored, at their right edge.
    pub button_hints_anchor: Point,
    /// The hints include the edit button.
    pub edit_hint: bool,
}

/// The display settings view: a list of the four adjustable settings and the
/// screen resolution, a restart notice once anything changed, and button
/// hints.
pub struct Display {
    pub rect: Rect,
    pub settings: DisplaySettings,
    pub list: SettingsList,
    pub has_changed: bool,
    /// The button hints offer the edit button.
    pub show_edit_hint: bool,
    pub restart_label_dirty: bool,
    pub button_hints_dirty: bool,
    pub button_diameter: u32,
}

impl Display {
    /// The view's rectangle holds the list and both hint rows, and every
    /// position derived from it is an `i32`.
    pub open spec fn fits(rect: Rect, button_diameter: u32) -> bool {
        &&& 24 <= rect.w
        &&& 24 + 2 * button_diameter <= rect.h
        &&& rect.x + rect.w <= i32::MAX
        &&& rect.y + rect.h <= i32::MAX
        &&& i32::MIN + 80 <= rect.y + rect.h
    }

    /// The list shows the four settings as percentages, then the resolution.
    pub open spec fn wf(&self) -> bool {
        &&& self.list.wf()
        &&& self.list.values@.len() == 5
        &&& forall|k: int|
            0 <= k < 4 ==> #[trigger] self.list.values@[k] == Widget::Percentage(
                field(self.settings, k) as i32,
            )
        &&& self.list.values@[RESOLUTION_ENTRY as int] is Label
        &&& Display::fits(self.rect, self.button_diameter)
    }

    /// The rectangle of the list inside the view's rectangle.
    pub open spec fn list_rect(rect: Rect, d: u32) -> Rect {
        Rect {
            x: (rect.x + 12) as i32,
            y: (rect.y + 8) as i32,
            w: (rect.w - 24) as u32,
            h: (rect.h - 24 - 2 * d) as u32,
        }
    }

    /// Opens the view on `settings` for a screen of `screen_w` by `screen_h`
    /// pixels; `labels` are the five entries' names, and `state` the
    /// selection to restore.
    pub fn new(
        rect: Rect,
        settings: DisplaySettings,
        screen_w: u32,
        screen_h: u32,
        labels: Vec<String>,
        button_diameter: u32,
        row_height: u32,
        state: Option<ChildState>,
    ) -> (d: Display)
        requires
            Display::fits(rect, button_diameter),
            labels@.len() == 5,
        ensures
            d.wf(),
            d.rect == rect,
            d.settings == settings,
            d.list.rect == Display::list_rect(rect, button_diameter),
            d.list.labels@ == labels@,
            d.list.values@ == seq![
                Widget::Percentage(settings.luminance as i32),
                Widget::Percentage(settings.hue as i32),
                Widget::Percentage(settings.saturation as i32),
                Widget::Percentage(settings.contrast as i32),
                Widget::Label(d.list.values@[4]->Label_0),
            ],
            d.list.values@[4]->Label_0@ == resolution_spec(screen_w as nat, screen_h as nat),
            d.list.selected == (match state {
                Some(st) => if st.selected < 5 { st.selected } else { 0 },
                None => 0,
            }),
            !d.list.editing,
            !d.has_changed,
            d.show_edit_hint,
    {
        let d = button_diameter;
        let list_rect = Rect::new(rect.x + 12, rect.y + 8, rect.w - 24, rect.h - 8 - d - 8 - d - 8);
        let mut values: Vec<Widget> = Vec::new();
        values.push(Widget::Percentage(settings.luminance as i32));
        values.push(Widget::Percentage(settings.hue as i32));
        values.push(Widget::Percentage(settings.saturation as i32));
        values.push(Widget::Percentage(settings.contrast as i32));
        values.push(Widget::Label(resolution_text(screen_w, screen_h)));
        let mut list = SettingsList::new(list_rect, labels, values, row_height);
        if let Some(st) = state {
            list.select(st.selected);
        }
        Display {
            rect,
            settings,
            list,
            has_changed: false,
            show_edit_hint: true,
            restart_label_dirty: true,
            button_hints_dirty: true,
            button_diameter,
        }
    }

    /// Tells whether the view is well formed.
    pub fn is_valid(&self) -> (b: bool)
        ensures
            b == self.wf(),
    {
        let n = self.list.values.len();
        if n != 5 || self.list.labels.len() != n || self.list.selected >= n {
            return false;
        }
        let editable = match &self.list.values[self.list.selected] {
            Widget::Label(_) => false,
            _ => true,
        };
        let resolution_ok = match &self.list.values[RESOLUTION_ENTRY] {
            Widget::Label(_) => true,
            _ => false,
        };
        let st = self.settings;
        let mut tied = true;
        let mut k: usize = 0;
        while k < 4
            invariant
                k <= 4,
                self.list.values@.len() == 5,
                tied == forall|j: int|
                    0 <= j < k ==> #[trigger] self.list.values@[j] == Widget::Percentage(
                        field(st, j) as i32,
                    ),
            decreases 4 - k,
        {
            let f: u8 = if k == 0 {
                st.luminance
            } else if k == 1 {
                st.hue
            } else if k == 2 {
                st.saturation
            } else {
                st.contrast
            };
            let same = match &self.list.values[k] {
                Widget::Percentage(v) => *v == f as i32,
                _ => false,
            };
            tied = tied && same;
            k = k + 1;
        }
        let r = self.rect;
        let d = self.button_diameter as i64;
        let right = r.x as i64 + r.w as i64;
        let bottom = r.y as i64 + r.h as i64;
        (!self.list.editing || editable) && resolution_ok && tied && 24 <= r.w
            && 24 + 2 * d <= r.h as i64 && right <= i32::MAX as i64 && bottom <= i32::MAX as i64
            && i32::MIN as i64 + 80 <= bottom
    }

    /// The rectangle the view occupies.
    pub fn bounding_box(&self) -> (r: Rect)
        ensures
            r == self.rect,
    {
        self.rect
    }

    /// Something in the view waits to be drawn.
    pub fn should_draw(&self) -> (b: bool)
        ensures
            b == (self.list.dirty || self.has_changed && self.restart_label_dirty
                || self.button_hints_dirty),
    {
        self.list.dirty || self.has_changed && self.restart_label_dirty || self.button_hints_dirty
    }

    /// Marks the whole view to be drawn again.
    pub fn set_should_draw(&mut self)
        ensures
            *final(self) == (Display {
                list: SettingsList { dirty: true, ..old(self).list },
                restart_label_dirty: true,
                button_hints_dirty: true,
                ..*old(self)
            }),
    {
        self.list.set_should_draw();
        self.restart_label_dirty = true;
        self.button_hints_dirty = true;
    }

    /// What the next redraw draws, and where.
    pub fn draw_plan(&self) -> (p: DisplayDrawPlan)
        requires
            self.wf(),
        ensures
            p.list == self.list.dirty,
            p.restart_label == (if self.has_changed && self.restart_label_dirty {
                Some(
                    Point {
                        x: (self.rect.x + self.rect.w - 12) as i32,
                        y: (self.rect.y + self.rect.h - 80) as i32,
                    },
                )
            } else {
                None
            }),
            p.button_hints == (if self.button_hints_dirty {
                Some(
                    Rect {
                        x: self.rect.x,
                        y: (self.rect.y + self.rect.h - self.button_diameter - 8) as i32,
                        w: self.rect.w,
                        h: self.button_diameter,
                    },
                )
            } else {
                None
            }),
            p.button_hints_anchor == (Point {
                x: (self.rect.x + self.rect.w - 12) as i32,
                y: (self.rect.y + self.rect.h - self.button_diameter - 8) as i32,
            }),
            p.edit_hint == self.show_edit_hint,
    {
        let r = self.rect;
        let right = (r.x as i64 + r.w as i64 - 12) as i32;
        let bottom = r.y as i64 + r.h as i64;
        let hints_top = (bottom - self.button_diameter as i64 - 8) as i32;
        DisplayDrawPlan {
            list: self.list.dirty,
            restart_label: if self.has_changed && self.restart_label_dirty {
                Some(Point { x: right, y: (bottom - 80) as i32 })
            } else {
                None
            },
            button_hints: if self.button_hints_dirty {
                Some(Rect::new(r.x, hints_top, r.w, self.button_diameter))
            } else {
                None
            },
            button_hints_anchor: Point { x: right, y: hints_top },
            edit_hint: self.show_edit_hint,
        }
    }

    /// Records that everything waiting has been drawn.
    pub fn mark_drawn(&mut self)
        ensures
            *final(self) == (Display {
                list: SettingsList { dirty: false, ..old(self).list },
                restart_label_dirty: false,
                button_hints_dirty: false,
                ..*old(self)
            }),
    {
        self.list.mark_drawn();
        self.restart_label_dirty = false;
        self.button_hints_dirty = false;
    }

    /// The state to keep when the view closes.
    pub fn save(&self) -> (st: ChildState)
        ensures
            st == (ChildState { selected: self.list.selected }),
    {
        ChildState { selected: self.list.selected() }
    }

    /// Applies one bubbled command to the settings. Returns whether it
    /// changed them.
    fn apply(&mut self, c: Command) -> (changed: bool)
        ensures
            changed == (applied(old(self).settings, c) is Some),
            changed ==> final(self).settings == applied(old(self).settings, c)->0,
            !changed ==> final(self).settings == old(self).settings,
            final(self).list == old(self).list,
            final(self).rect == old(self).rect,
            final(self).has_changed == old(self).has_changed,
            final(self).show_edit_hint == old(self).show_edit_hint,
            final(self).restart_label_dirty == old(self).restart_label_dirty,
            final(self).button_hints_dirty == old(self).button_hints_dirty,
            final(self).button_diameter == old(self).button_diameter,
    {
        match c {
            Command::ValueChanged(k, Value::Int(v)) => {
                let v = v as u8;
                if k == 0 && self.settings.luminance != v {
                    self.settings.luminance = v;
                    true
                } else if k == 1 && self.settings.hue != v {
                    self.settings.hue = v;
                    true
                } else if k == 2 && self.settings.saturation != v {
                    self.settings.saturation = v;
                    true
                } else if k == 3 && self.settings.contrast != v {
                    self.settings.contrast = v;
                    true
                } else {
                    false
                }
            },
            _ => false,
        }
    }

    /// Handles one key event. The list gets it first; if it consumes it, the
    /// changes it bubbled (with whatever `bubble` already held) are applied
    /// in order and `bubble` is emptied, and a snapshot of the settings is
    /// returned to persist after each change that alters them. Otherwise the
    /// cancel button bubbles a request to close the view. Returns whether the
    /// event was consumed, and the snapshots to send.
    pub fn handle_key_event(&mut self, event: KeyEvent, bubble: &mut Vec<Command>) -> (r: (
        bool,
        Vec<Command>,
    ))
        requires
            old(self).wf(),
        ensures
            final(self).wf(),
            ({
                let (l2, handled, pushed) = old(self).list@.stepped(event);
                let all = old(bubble)@ + pushed;
                let (s2, sends) = apply_changes(old(self).settings, all);
                let show = l2.selected != RESOLUTION_ENTRY;
                &&& final(self).list.selected == l2.selected
                &&& final(self).list.editing == l2.editing
                &&& final(self).list.values@[RESOLUTION_ENTRY as int] == l2.values[RESOLUTION_ENTRY as int]
                &&& final(self).list.labels@ == old(self).list.labels@
                &&& final(self).list.rect == old(self).list.rect
                &&& final(self).list.row_height == old(self).list.row_height
                &&& final(self).rect == old(self).rect
                &&& final(self).button_diameter == old(self).button_diameter
                &&& handled ==> {
                    &&& r.0
                    &&& final(self).settings == s2
                    &&& r.1@ == sends
                    &&& final(bubble)@.len() == 0
                    &&& final(self).has_changed == (old(self).has_changed || sends.len() > 0)
                    &&& final(self).restart_label_dirty == (old(self).restart_label_dirty
                        || sends.len() > 0)
                    &&& final(self).list.dirty == (l2.dirty || sends.len() > 0)
                    &&& final(self).show_edit_hint == show
                    &&& final(self).button_hints_dirty == (old(self).button_hints_dirty
                        || old(self).show_edit_hint != show)
                    &&& (forall|j: int|
                        0 <= j < all.len() ==> #[trigger] applied(old(self).settings, all[j])
                            is None) ==> {
                        &&& r.1@.len() == 0
                        &&& final(self).settings == old(self).settings
                    }
                }
                &&& !handled ==> {
                    &&& r.0 == (event == KeyEvent::Pressed(Key::B))
                    &&& final(bubble)@ == (if r.0 {
                        old(bubble)@.push(Command::CloseView)
                    } else {
                        old(bubble)@
                    })
                    &&& r.1@.len() == 0
                    &&& final(self).list@ == old(self).list@
                    &&& final(self).settings == old(self).settings
                    &&& final(self).has_changed == old(self).has_changed
                    &&& final(self).show_edit_hint == old(self).show_edit_hint
                    &&& final(self).restart_label_dirty == old(self).restart_label_dirty
                    &&& final(self).button_hints_dirty == old(self).button_hints_dirty
                }
            }),
    {
        let ghost b0 = bubble@;
        let ghost s0 = self.settings;
        let handled = self.list.handle_key_event(event, bubble);
        proof {
            assert(bubble@.take(b0.len() as int) + bubble@.skip(b0.len() as int) =~= bubble@);
        }
        if handled {
            let show = self.list.selected() != RESOLUTION_ENTRY;
            if show != self.show_edit_hint {
                self.show_edit_hint = show;
                self.button_hints_dirty = true;
            }
            let mut sends: Vec<Command> = Vec::new();
            let ghost h0 = self.has_changed;
            let ghost r0 = self.restart_label_dirty;
            let ghost hints = self.button_hints_dirty;
            let mut i: usize = 0;
            while i < bubble.len()
                invariant
                    self.list.wf(),
                    self.list.values@.len() == 5,
                    Display::fits(self.rect, self.button_diameter),
                    i <= bubble@.len(),
                    (self.settings, sends@) == apply_changes(s0, bubble@.take(i as int)),
                    self.has_changed == (h0 || sends@.len() > 0),
                    self.restart_label_dirty == (r0 || sends@.len() > 0),
                    self.button_hints_dirty == hints,
                    self.list@ == old(self).list@.stepped(event).0,
                    self.list.labels@ == old(self).list.labels@,
                    self.list.rect == old(self).list.rect,
                    self.list.row_height == old(self).list.row_height,
                    self.rect == old(self).rect,
                    self.button_diameter == old(self).button_diameter,
                    self.show_edit_hint == (self.list.selected != RESOLUTION_ENTRY),
                decreases bubble@.len() - i,
            {
                let c = bubble[i];
                assert(bubble@.take(i + 1).drop_last() =~= bubble@.take(i as int));
                if self.apply(c) {
                    self.has_changed = true;
                    self.restart_label_dirty = true;
                    sends.push(Command::SaveDisplaySettings(self.settings));
                }
                i = i + 1;
            }
            assert(bubble@.take(bubble@.len() as int) =~= bubble@);
            proof {
                lemma_unchanged_settings_send_nothing(s0, bubble@);
            }
            bubble.clear();
            self.list.values[0] = Widget::Percentage(self.settings.luminance as i32);
            self.list.values[1] = Widget::Percentage(self.settings.hue as i32);
            self.list.values[2] = Widget::Percentage(self.settings.saturation as i32);
            self.list.values[3] = Widget::Percentage(self.settings.contrast as i32);
            if sends.len() > 0 {
                self.list.dirty = true;
            }
            (true, sends)
        } else {
            match event {
                KeyEvent::Pressed(Key::B) => {
                    bubble.push(Command::CloseView);
                    (true, Vec::new())
                },
                _ => (false, Vec::new()),
            }
        }
    }
}

/// Commands that leave the settings as they are send nothing: a change to a
/// value the field already holds is not persisted.
pub proof fn lemma_unchanged_settings_send_nothing(s: DisplaySettings, cmds: Seq<Command>)
    ensures
        (forall|j: int| 0 <= j < cmds.len() ==> #[trigger] applied(s, cmds[j]) is None)
            ==> apply_changes(s, cmds) == (s, Seq::<Command>::empty()),
    decreases cmds.len(),
{
    if cmds.len() > 0 {
        lemma_unchanged_settings_send_nothing(s, cmds.drop_last());
        if forall|j: int| 0 <= j < cmds.len() ==> #[trigger] applied(s, cmds[j]) is None {
            assert forall|j: int| 0 <= j < cmds.drop_last().len() implies #[trigger] applied(
                s,
                cmds.drop_last()[j],
            ) is None by {
                assert(applied(s, cmds[j]) is None);
            }
            assert(applied(s, cmds[cmds.len() - 1]) is None);
        }
    }
}

/// A percentage step past its bound while editing, with nothing queued
/// before, is consumed and leaves the settings as they are with nothing to
/// persist.
pub proof fn lemma_saturated_step_sends_nothing(d: Display, up: bool)
    requires
        d.wf(),
        d.list.editing,
        d.list.selected < 4,
        field(d.settings, d.list.selected as int) == (if up { 100u8 } else { 0u8 }),
    ensures
        ({
            let e = KeyEvent::Pressed(if up { Key::Right } else { Key::Left });
            let (l2, handled, pushed) = d.list@.stepped(e);
            &&& handled
            &&& l2 == d.list@
            &&& apply_changes(d.settings, Seq::<Command>::empty() + pushed) == (
                d.settings,
                Seq::<Command>::empty(),
            )
        }),
{
    let e = KeyEvent::Pressed(if up { Key::Right } else { Key::Left });
    let pushed = d.list@.stepped(e).2;
    assert(pushed =~= Seq::<Command>::empty());
    assert(Seq::<Command>::empty() + pushed =~= Seq::<Command>::empty());
}

} // verus!
