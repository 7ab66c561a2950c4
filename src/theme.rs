use crate::color::Color;
use crate::color::{digit_value, hex_char};
use crate::command::Command;
use crate::geom::{Point, Rect};
use crate::input::{Key, KeyEvent};
use crate::nav::{
    cursor_left, cursor_left_spec, cursor_right, cursor_right_spec, wrap_next, wrap_next_spec,
    wrap_prev, wrap_prev_spec, LAST_DIGIT,
};
use crate::stylesheet::{default_stylesheet, Stylesheet};
use vstd::prelude::*;

verus! {

/// The number of entries of the theme editor.
pub const THEME_SETTING_COUNT: usize = 10;

/// The entries of the theme editor, in the order they are listed.
#[derive(Clone, Copy, Debug, PartialEq, Eq, Structural)]
pub enum ThemeSetting {
    DarkMode,
    EnableBoxArt,
    HighlightColor,
    ForegroundColor,
    BackgroundColor,
    ButtonAColor,
    ButtonBColor,
    ButtonXColor,
    ButtonYColor,
    ResetToDefault,
}

/// What an entry of a settings list shows beside its label.
#[derive(Clone, Copy, Debug)]
pub enum SettingValue {
    /// Nothing: the entry is an action.
    Nothing,
    Bool(bool),
    Color(Color),
    /// Literal text: the entry is an action.
    Text(&'static str),
}

/// A label with the value shown beside it.
#[derive(Clone, Copy, Debug)]
pub struct Setting {
    pub label: &'static str,
    pub value: SettingValue,
}

impl Setting {
    pub fn none(label: &'static str) -> (s: Setting)
        ensures
            s.label == label,
            s.value is Nothing,
    {
        Setting { label, value: SettingValue::Nothing }
    }
}

impl ThemeSetting {
    /// The entry at position `i` of the list (the last one for `i >= 9`).
    pub open spec fn at(i: int) -> ThemeSetting {
        if i == 0 {
            ThemeSetting::DarkMode
        } else if i == 1 {
            ThemeSetting::EnableBoxArt
        } else if i == 2 {
            ThemeSetting::HighlightColor
        } else if i == 3 {
            ThemeSetting::ForegroundColor
        } else if i == 4 {
            ThemeSetting::BackgroundColor
        } else if i == 5 {
            ThemeSetting::ButtonAColor
        } else if i == 6 {
            ThemeSetting::ButtonBColor
        } else if i == 7 {
            ThemeSetting::ButtonXColor
        } else if i == 8 {
            ThemeSetting::ButtonYColor
        } else {
            ThemeSetting::ResetToDefault
        }
    }

    pub open spec fn is_color(self) -> bool {
        !(self is DarkMode || self is EnableBoxArt || self is ResetToDefault)
    }

    /// The stylesheet colour that a colour entry edits.
    pub open spec fn color_of(self, ss: Stylesheet) -> Color {
        match self {
            ThemeSetting::HighlightColor => ss.highlight_color,
            ThemeSetting::ForegroundColor => ss.foreground_color,
            ThemeSetting::BackgroundColor => ss.background_color,
            ThemeSetting::ButtonAColor => ss.button_a_color,
            ThemeSetting::ButtonBColor => ss.button_b_color,
            ThemeSetting::ButtonXColor => ss.button_x_color,
            _ => ss.button_y_color,
        }
    }

    /// The stylesheet with the colour that a colour entry edits set to `c`.
    pub open spec fn with_color(self, ss: Stylesheet, c: Color) -> Stylesheet {
        match self {
            ThemeSetting::HighlightColor => Stylesheet { highlight_color: c, ..ss },
            ThemeSetting::ForegroundColor => Stylesheet { foreground_color: c, ..ss },
            ThemeSetting::BackgroundColor => Stylesheet { background_color: c, ..ss },
            ThemeSetting::ButtonAColor => Stylesheet { button_a_color: c, ..ss },
            ThemeSetting::ButtonBColor => Stylesheet { button_b_color: c, ..ss },
            ThemeSetting::ButtonXColor => Stylesheet { button_x_color: c, ..ss },
            ThemeSetting::ButtonYColor => Stylesheet { button_y_color: c, ..ss },
            _ => ss,
        }
    }

    /// The label of the entry.
    pub open spec fn label(self) -> &'static str {
        match self {
            ThemeSetting::DarkMode => "Dark Mode",
            ThemeSetting::EnableBoxArt => "Enable Box Art",
            ThemeSetting::HighlightColor => "Highlight Color",
            ThemeSetting::ForegroundColor => "Foreground Color",
            ThemeSetting::BackgroundColor => "Background Color",
            ThemeSetting::ButtonAColor => "Button A Color",
            ThemeSetting::ButtonBColor => "Button B Color",
            ThemeSetting::ButtonXColor => "Button X Color",
            ThemeSetting::ButtonYColor => "Button Y Color",
            ThemeSetting::ResetToDefault => "Reset to Default",
        }
    }

    /// What the entry shows beside its label for the stylesheet.
    pub open spec fn value_in(self, ss: Stylesheet) -> SettingValue {
        match self {
            ThemeSetting::DarkMode => SettingValue::Text("Toggle"),
            ThemeSetting::EnableBoxArt => SettingValue::Bool(ss.enable_box_art),
            ThemeSetting::ResetToDefault => SettingValue::Nothing,
            _ => SettingValue::Color(self.color_of(ss)),
        }
    }

    /// The entry at position `i`, if there is one.
    pub fn from_repr(i: usize) -> (t: Option<ThemeSetting>)
        ensures
            i < THEME_SETTING_COUNT ==> t == Some(ThemeSetting::at(i as int)),
            i >= THEME_SETTING_COUNT ==> t is None,
    {
        match i {
            0 => Some(ThemeSetting::DarkMode),
            1 => Some(ThemeSetting::EnableBoxArt),
            2 => Some(ThemeSetting::HighlightColor),
            3 => Some(ThemeSetting::ForegroundColor),
            4 => Some(ThemeSetting::BackgroundColor),
            5 => Some(ThemeSetting::ButtonAColor),
            6 => Some(ThemeSetting::ButtonBColor),
            7 => Some(ThemeSetting::ButtonXColor),
            8 => Some(ThemeSetting::ButtonYColor),
            9 => Some(ThemeSetting::ResetToDefault),
            _ => None,
        }
    }

    /// The label and value that the entry shows for the stylesheet.
    pub fn setting(&self, stylesheet: &Stylesheet) -> (s: Setting)
        ensures
            s.label == self.label(),
            s.value == self.value_in(*stylesheet),
    {
        match self {
            ThemeSetting::DarkMode => Setting { label: "Dark Mode", value: SettingValue::Text("Toggle") },
            ThemeSetting::EnableBoxArt => Setting {
                label: "Enable Box Art",
                value: SettingValue::Bool(stylesheet.enable_box_art),
            },
            ThemeSetting::HighlightColor => Setting {
                label: "Highlight Color",
                value: SettingValue::Color(stylesheet.highlight_color),
            },
            ThemeSetting::ForegroundColor => Setting {
                label: "Foreground Color",
                value: SettingValue::Color(stylesheet.foreground_color),
            },
            ThemeSetting::BackgroundColor => Setting {
                label: "Background Color",
                value: SettingValue::Color(stylesheet.background_color),
            },
            ThemeSetting::ButtonAColor => Setting {
                label: "Button A Color",
                value: SettingValue::Color(stylesheet.button_a_color),
            },
            ThemeSetting::ButtonBColor => Setting {
                label: "Button B Color",
                value: SettingValue::Color(stylesheet.button_b_color),
            },
            ThemeSetting::ButtonXColor => Setting {
                label: "Button X Color",
                value: SettingValue::Color(stylesheet.button_x_color),
            },
            ThemeSetting::ButtonYColor => Setting {
                label: "Button Y Color",
                value: SettingValue::Color(stylesheet.button_y_color),
            },
            ThemeSetting::ResetToDefault => Setting::none("Reset to Default"),
        }
    }

    /// The stylesheet colour that a colour entry edits.
    pub fn color_in(&self, ss: &Stylesheet) -> (c: Color)
        requires
            self.is_color(),
        ensures
            c == self.color_of(*ss),
    {
        match self {
            ThemeSetting::HighlightColor => ss.highlight_color,
            ThemeSetting::ForegroundColor => ss.foreground_color,
            ThemeSetting::BackgroundColor => ss.background_color,
            ThemeSetting::ButtonAColor => ss.button_a_color,
            ThemeSetting::ButtonBColor => ss.button_b_color,
            ThemeSetting::ButtonXColor => ss.button_x_color,
            _ => ss.button_y_color,
        }
    }

    /// Sets the stylesheet colour that a colour entry edits; other entries
    /// leave the stylesheet as it is.
    pub fn set_color(&self, ss: &mut Stylesheet, c: Color)
        ensures
            *final(ss) == self.with_color(*old(ss), c),
    {
        match self {
            ThemeSetting::HighlightColor => ss.highlight_color = c,
            ThemeSetting::ForegroundColor => ss.foreground_color = c,
            ThemeSetting::BackgroundColor => ss.background_color = c,
            ThemeSetting::ButtonAColor => ss.button_a_color = c,
            ThemeSetting::ButtonBColor => ss.button_b_color = c,
            ThemeSetting::ButtonXColor => ss.button_x_color = c,
            ThemeSetting::ButtonYColor => ss.button_y_color = c,
            _ => {},
        }
    }
}

/// The colour being edited digit by digit, and the digit under the cursor
/// (0 to 5, `RRGGBB`).
#[derive(Clone, Copy, Debug, PartialEq, Eq, Structural)]
pub struct ColorEditState {
    pub color: Color,
    pub selected: usize,
}

impl ColorEditState {
    /// Starts editing `color` with the cursor on the first digit.
    pub fn new(color: Color) -> (e: ColorEditState)
        ensures
            e == (ColorEditState { color, selected: 0 }),
    {
        ColorEditState { color, selected: 0 }
    }
}

/// The theme editor: a full-screen list of the stylesheet's entries, with a
/// digit editor for colours and a confirmation before a reset.
#[derive(Clone, Copy, Debug, PartialEq, Eq, Structural)]
pub struct SettingsThemeState {
    /// The working copy of the stylesheet.
    pub stylesheet: Stylesheet,
    /// The position of the selected entry.
    pub selected: usize,
    /// The colour being edited, if any.
    pub selected_color: Option<ColorEditState>,
    /// A reset to the default stylesheet waits for confirmation.
    pub confirm_reset: bool,
}

impl SettingsThemeState {
    pub open spec fn wf(self) -> bool {
        &&& self.selected < THEME_SETTING_COUNT
        &&& self.selected_color is Some ==> {
            &&& self.selected_color->0.selected <= LAST_DIGIT
            &&& ThemeSetting::at(self.selected as int).is_color()
        }
        &&& self.confirm_reset ==> {
            &&& ThemeSetting::at(self.selected as int) is ResetToDefault
            &&& self.selected_color is None
        }
    }

    /// The state, and the command to send, after the accept button on the
    /// selected entry.
    pub open spec fn accepted(self) -> (SettingsThemeState, Option<Command>) {
        let t = ThemeSetting::at(self.selected as int);
        let ss = self.stylesheet;
        match self.selected_color {
            Some(e) => {
                let ss2 = t.with_color(ss, e.color);
                (
                    SettingsThemeState { stylesheet: ss2, selected_color: None, ..self },
                    Some(Command::SaveStylesheet(ss2)),
                )
            },
            None => match t {
                ThemeSetting::DarkMode => {
                    let ss2 = Stylesheet {
                        foreground_color: ss.foreground_color.inverted(),
                        background_color: ss.background_color.inverted(),
                        ..ss
                    };
                    (
                        SettingsThemeState { stylesheet: ss2, ..self },
                        Some(Command::SaveStylesheet(ss2)),
                    )
                },
                ThemeSetting::EnableBoxArt => {
                    let ss2 = Stylesheet { enable_box_art: !ss.enable_box_art, ..ss };
                    (
                        SettingsThemeState { stylesheet: ss2, ..self },
                        Some(Command::SaveStylesheet(ss2)),
                    )
                },
                ThemeSetting::ResetToDefault => if self.confirm_reset {
                    (
                        SettingsThemeState {
                            stylesheet: default_stylesheet(),
                            confirm_reset: false,
                            ..self
                        },
                        Some(Command::SaveStylesheet(default_stylesheet())),
                    )
                } else {
                    (SettingsThemeState { confirm_reset: true, ..self }, None)
                },
                _ => (
                    SettingsThemeState {
                        selected_color: Some(ColorEditState { color: t.color_of(ss), selected: 0 }),
                        ..self
                    },
                    None,
                ),
            },
        }
    }

    /// The state, the command to send and whether to redraw, after `e`.
    pub open spec fn stepped(self, e: KeyEvent) -> (SettingsThemeState, Option<Command>, bool) {
        if self.confirm_reset {
            match e {
                KeyEvent::Pressed(Key::A) => (self.accepted().0, self.accepted().1, true),
                KeyEvent::Pressed(_) => (SettingsThemeState { confirm_reset: false, ..self }, None, true),
                _ => (self, None, false),
            }
        } else if self.selected_color is Some {
            let ed = self.selected_color->0;
            let with_edit = |ed2: ColorEditState|
                SettingsThemeState { selected_color: Some(ed2), ..self };
            if e.pressed_or_repeated(Key::Up) || e.pressed_or_repeated(Key::Down) {
                let c = ed.color.digit_stepped(ed.selected as int, e.pressed_or_repeated(Key::Up));
                (with_edit(ColorEditState { color: c, ..ed }), None, true)
            } else if e.pressed_or_repeated(Key::Left) {
                let cur = cursor_left_spec(ed.selected as int) as usize;
                (with_edit(ColorEditState { selected: cur, ..ed }), None, true)
            } else if e.pressed_or_repeated(Key::Right) {
                let cur = cursor_right_spec(ed.selected as int) as usize;
                (with_edit(ColorEditState { selected: cur, ..ed }), None, true)
            } else if e == KeyEvent::Pressed(Key::A) {
                (self.accepted().0, self.accepted().1, true)
            } else if e == KeyEvent::Pressed(Key::B) {
                (SettingsThemeState { selected_color: None, ..self }, None, true)
            } else {
                (self, None, false)
            }
        } else {
            let n = THEME_SETTING_COUNT as int;
            if e.pressed_or_repeated(Key::Up) {
                let i = wrap_prev_spec(self.selected as int, n) as usize;
                (SettingsThemeState { selected: i, ..self }, None, true)
            } else if e.pressed_or_repeated(Key::Down) {
                let i = wrap_next_spec(self.selected as int, n) as usize;
                (SettingsThemeState { selected: i, ..self }, None, true)
            } else if e == KeyEvent::Pressed(Key::A) {
                (self.accepted().0, self.accepted().1, true)
            } else {
                (self, None, false)
            }
        }
    }

    /// Opens the editor on `stylesheet` with the first entry selected.
    pub fn new(stylesheet: Stylesheet) -> (s: SettingsThemeState)
        ensures
            s == (SettingsThemeState {
                stylesheet,
                selected: 0,
                selected_color: None,
                confirm_reset: false,
            }),
            s.wf(),
    {
        SettingsThemeState { stylesheet, selected: 0, selected_color: None, confirm_reset: false }
    }

    /// Tells whether the state is well formed.
    pub fn is_valid(&self) -> (b: bool)
        ensures
            b == self.wf(),
    {
        let kind = ThemeSetting::from_repr(self.selected);
        match kind {
            None => false,
            Some(t) => {
                let is_color = match t {
                    ThemeSetting::DarkMode | ThemeSetting::EnableBoxArt
                    | ThemeSetting::ResetToDefault => false,
                    _ => true,
                };
                let edit_ok = match self.selected_color {
                    Some(e) => e.selected <= LAST_DIGIT && is_color,
                    None => true,
                };
                let reset_ok = !self.confirm_reset || (t == ThemeSetting::ResetToDefault
                    && self.selected_color.is_none());
                edit_ok && reset_ok
            },
        }
    }

    /// Called when the screen becomes active; the state stays as it is.
    pub fn enter(&mut self)
        ensures
            *final(self) == *old(self),
    {
    }

    /// Called when the screen stops being active; the state stays as it is.
    pub fn leave(&mut self)
        ensures
            *final(self) == *old(self),
    {
    }

    /// Acts on the accept button for the entry at position `selected`: commits
    /// or starts a colour edit, toggles a flag, or arms and then performs a
    /// reset. Returns the command to send, if any.
    fn select_entry(&mut self, selected: usize) -> (cmd: Option<Command>)
        requires
            old(self).wf(),
            selected == old(self).selected,
        ensures
            (*final(self), cmd) == old(self).accepted(),
            final(self).wf(),
    {
        if let Some(edit) = self.selected_color {
            self.selected_color = None;
            if let Some(t) = ThemeSetting::from_repr(selected) {
                t.set_color(&mut self.stylesheet, edit.color);
            }
            Some(Command::SaveStylesheet(self.stylesheet))
        } else {
            match ThemeSetting::from_repr(selected) {
                Some(ThemeSetting::DarkMode) => {
                    self.stylesheet.foreground_color = self.stylesheet.foreground_color.invert();
                    self.stylesheet.background_color = self.stylesheet.background_color.invert();
                    Some(Command::SaveStylesheet(self.stylesheet))
                },
                Some(ThemeSetting::EnableBoxArt) => {
                    self.stylesheet.enable_box_art = !self.stylesheet.enable_box_art;
                    Some(Command::SaveStylesheet(self.stylesheet))
                },
                Some(ThemeSetting::ResetToDefault) => {
                    if self.confirm_reset {
                        self.stylesheet = Stylesheet::default();
                        self.confirm_reset = false;
                        Some(Command::SaveStylesheet(self.stylesheet))
                    } else {
                        self.confirm_reset = true;
                        None
                    }
                },
                Some(t) => {
                    self.selected_color = Some(ColorEditState::new(t.color_in(&self.stylesheet)));
                    None
                },
                None => None,
            }
        }
    }

    /// Handles one key event. Returns the command to send, if any, and
    /// whether the screen must be redrawn.
    pub fn handle_key_event(&mut self, key_event: KeyEvent) -> (r: (Option<Command>, bool))
        requires
            old(self).wf(),
        ensures
            (*final(self), r.0, r.1) == old(self).stepped(key_event),
            final(self).wf(),
    {
        if self.confirm_reset {
            match key_event {
                KeyEvent::Pressed(Key::A) => {
                    let cmd = self.select_entry(self.selected);
                    (cmd, true)
                },
                KeyEvent::Pressed(_) => {
                    self.confirm_reset = false;
                    (None, true)
                },
                _ => (None, false),
            }
        } else if let Some(edit) = self.selected_color {
            match key_event {
                KeyEvent::Pressed(Key::Up) | KeyEvent::Autorepeat(Key::Up) => {
                    let color = edit.color.step_digit(edit.selected, true);
                    self.selected_color = Some(ColorEditState { color, ..edit });
                    (None, true)
                },
                KeyEvent::Pressed(Key::Down) | KeyEvent::Autorepeat(Key::Down) => {
                    let color = edit.color.step_digit(edit.selected, false);
                    self.selected_color = Some(ColorEditState { color, ..edit });
                    (None, true)
                },
                KeyEvent::Pressed(Key::Left) | KeyEvent::Autorepeat(Key::Left) => {
                    let cursor = cursor_left(edit.selected);
                    self.selected_color = Some(ColorEditState { selected: cursor, ..edit });
                    (None, true)
                },
                KeyEvent::Pressed(Key::Right) | KeyEvent::Autorepeat(Key::Right) => {
                    let cursor = cursor_right(edit.selected);
                    self.selected_color = Some(ColorEditState { selected: cursor, ..edit });
                    (None, true)
                },
                KeyEvent::Pressed(Key::A) => {
                    let cmd = self.select_entry(self.selected);
                    (cmd, true)
                },
                KeyEvent::Pressed(Key::B) => {
                    self.selected_color = None;
                    (None, true)
                },
                _ => (None, false),
            }
        } else {
            match key_event {
                KeyEvent::Pressed(Key::Up) | KeyEvent::Autorepeat(Key::Up) => {
                    self.selected = wrap_prev(self.selected, THEME_SETTING_COUNT);
                    (None, true)
                },
                KeyEvent::Pressed(Key::Down) | KeyEvent::Autorepeat(Key::Down) => {
                    self.selected = wrap_next(self.selected, THEME_SETTING_COUNT);
                    (None, true)
                },
                KeyEvent::Pressed(Key::A) => {
                    let cmd = self.select_entry(self.selected);
                    (cmd, true)
                },
                _ => (None, false),
            }
        }
    }
}

/// Left edge of the entry list.
pub const LIST_LEFT: i32 = 156;
/// Top edge of the entry list.
pub const LIST_TOP: i32 = 58;
/// Height of one entry of the list.
pub const ROW_HEIGHT: i32 = 42;
/// Width of the entry list.
pub const LIST_WIDTH: u32 = 460;
/// Width of the digit editor, from its right edge.
pub const EDITOR_WIDTH: u32 = 224;

/// Where and what the digit editor draws over the selected entry.
#[derive(Debug)]
pub struct ColorEditorPlan {
    /// The region to clear before drawing.
    pub region: Rect,
    /// The right edge of the colour swatch, on the entry's text line.
    pub swatch: Point,
    pub color: Color,
    /// The right edge of the last hex digit; digits are drawn right to left
    /// from here, then a `#`.
    pub digits_right: i32,
    /// The six hex digits, `RRGGBB`.
    pub digits: Vec<char>,
    /// The digit to underline.
    pub cursor: usize,
}

/// What one redraw of the theme editor shows.
#[derive(Debug)]
pub struct ThemeDrawPlan {
    /// The region to clear before drawing the list.
    pub region: Rect,
    pub settings: Vec<Setting>,
    pub selected: usize,
    pub editing: bool,
    pub list_width: u32,
    pub editor: Option<ColorEditorPlan>,
}

impl SettingsThemeState {
    /// The label and value of every entry, in order; the reset entry asks for
    /// confirmation once armed.
    pub fn settings(&self) -> (r: Vec<Setting>)
        ensures
            r@.len() == THEME_SETTING_COUNT,
            forall|i: int|
                0 <= i < THEME_SETTING_COUNT ==> #[trigger] r@[i].value == ThemeSetting::at(
                    i,
                ).value_in(self.stylesheet),
            forall|i: int| 0 <= i < 9 ==> #[trigger] r@[i].label == ThemeSetting::at(i).label(),
            r@[9].label == (if self.confirm_reset {
                "Confirm Reset?"
            } else {
                "Reset to Default"
            }),
    {
        let mut r: Vec<Setting> = Vec::new();
        let mut i: usize = 0;
        while i < THEME_SETTING_COUNT
            invariant
                i <= THEME_SETTING_COUNT,
                r@.len() == i,
                forall|j: int|
                    0 <= j < i ==> #[trigger] r@[j].value == ThemeSetting::at(j).value_in(
                        self.stylesheet,
                    ),
                forall|j: int| 0 <= j < i && j < 9 ==> #[trigger] r@[j].label == ThemeSetting::at(j).label(),
                i > 9 ==> r@[9].label == (if self.confirm_reset {
                    "Confirm Reset?"
                } else {
                    "Reset to Default"
                }),
            decreases THEME_SETTING_COUNT - i,
        {
            let s = match ThemeSetting::from_repr(i) {
                Some(ThemeSetting::ResetToDefault) => if self.confirm_reset {
                    Setting::none("Confirm Reset?")
                } else {
                    Setting::none("Reset to Default")
                },
                Some(t) => t.setting(&self.stylesheet),
                None => Setting::none(""),
            };
            r.push(s);
            i = i + 1;
        }
        r
    }

    /// What to draw on a screen of `width` by `height` pixels.
    pub fn draw_plan(&self, width: u32, height: u32) -> (p: ThemeDrawPlan)
        requires
            self.wf(),
            168 <= width <= i32::MAX,
            62 <= height,
        ensures
            p.region == (Rect {
                x: (LIST_LEFT - 12) as i32,
                y: (LIST_TOP - 4) as i32,
                w: (width - 168) as u32,
                h: (height - 62) as u32,
            }),
            p.settings@.len() == THEME_SETTING_COUNT,
            forall|i: int|
                0 <= i < THEME_SETTING_COUNT ==> #[trigger] p.settings@[i].value == ThemeSetting::at(
                    i,
                ).value_in(self.stylesheet),
            forall|i: int|
                0 <= i < 9 ==> #[trigger] p.settings@[i].label == ThemeSetting::at(i).label(),
            p.settings@[9].label == (if self.confirm_reset {
                "Confirm Reset?"
            } else {
                "Reset to Default"
            }),
            p.selected == self.selected,
            p.editing == self.selected_color is Some,
            p.list_width == LIST_WIDTH,
            p.editor is Some <==> self.selected_color is Some,
            p.editor is Some ==> ({
                let (ed, plan) = (self.selected_color->0, p.editor->0);
                let (x, y) = (width - 24, LIST_TOP + self.selected * ROW_HEIGHT);
                &&& plan.region == (Rect {
                    x: (x - EDITOR_WIDTH) as i32,
                    y: (y - 4) as i32,
                    w: EDITOR_WIDTH,
                    h: ROW_HEIGHT as u32,
                })
                &&& plan.swatch == (Point { x: x as i32, y: y as i32 })
                &&& plan.color == ed.color
                &&& plan.digits_right == x - 42
                &&& plan.digits@.len() == 6
                &&& forall|j: int|
                    0 <= j < 6 ==> #[trigger] plan.digits@[j] == hex_char(digit_value(ed.color, j))
                &&& plan.cursor == ed.selected
            }),
    {
        let settings = self.settings();
        let editor = match self.selected_color {
            Some(ed) => {
                let x: i32 = width as i32 - 24;
                let y: i32 = LIST_TOP + self.selected as i32 * ROW_HEIGHT;
                let mut digits: Vec<char> = Vec::new();
                let mut i: usize = 0;
                while i < 6
                    invariant
                        i <= 6,
                        digits@.len() == i,
                        forall|j: int|
                            0 <= j < i ==> #[trigger] digits@[j] == hex_char(
                                digit_value(ed.color, j),
                            ),
                    decreases 6 - i,
                {
                    digits.push(ed.color.char(i));
                    i = i + 1;
                }
                Some(
                    ColorEditorPlan {
                        region: Rect::new(x - EDITOR_WIDTH as i32, y - 4, EDITOR_WIDTH, ROW_HEIGHT as u32),
                        swatch: Point { x, y },
                        color: ed.color,
                        digits_right: x - 42,
                        digits,
                        cursor: ed.selected,
                    },
                )
            },
            None => None,
        };
        ThemeDrawPlan {
            region: Rect::new(LIST_LEFT - 12, LIST_TOP - 4, width - 168, height - 62),
            settings,
            selected: self.selected,
            editing: self.selected_color.is_some(),
            list_width: LIST_WIDTH,
            editor,
        }
    }
}

/// A reset takes two accepts in a row: the first only arms it, the second
/// restores the default stylesheet and sends it once, and any other key
/// between them disarms it and changes nothing.
pub proof fn lemma_reset_confirmation(s: SettingsThemeState, other: Key)
    requires
        s.wf(),
        ThemeSetting::at(s.selected as int) is ResetToDefault,
        s.selected_color is None,
        !s.confirm_reset,
        other != Key::A,
    ensures
        ({
            let (armed, c1, _) = s.stepped(KeyEvent::Pressed(Key::A));
            &&& armed == (SettingsThemeState { confirm_reset: true, ..s })
            &&& c1 is None
            &&& armed.stepped(KeyEvent::Pressed(Key::A)).0 == (SettingsThemeState {
                stylesheet: default_stylesheet(),
                ..s
            })
            &&& armed.stepped(KeyEvent::Pressed(Key::A)).1 == Some(
                Command::SaveStylesheet(default_stylesheet()),
            )
            &&& armed.stepped(KeyEvent::Pressed(other)).0 == s
            &&& armed.stepped(KeyEvent::Pressed(other)).1 is None
        }),
        s.accepted() == (SettingsThemeState { confirm_reset: true, ..s }, None::<Command>),
        (SettingsThemeState { confirm_reset: true, ..s }).accepted() == (
            SettingsThemeState { stylesheet: default_stylesheet(), ..s },
            Some(Command::SaveStylesheet(default_stylesheet())),
        ),
{
}

/// Accepting a colour entry opens the digit editor on that entry's colour
/// with the cursor on the first digit, and changes nothing else.
pub proof fn lemma_color_edit_entered(s: SettingsThemeState)
    requires
        s.wf(),
        ThemeSetting::at(s.selected as int).is_color(),
        s.selected_color is None,
        !s.confirm_reset,
    ensures
        ({
            let (t, (s2, cmd, _)) = (ThemeSetting::at(s.selected as int), s.stepped(KeyEvent::Pressed(Key::A)));
            &&& s2.selected_color == Some(ColorEditState { color: t.color_of(s.stylesheet), selected: 0 })
            &&& s2.stylesheet == s.stylesheet
            &&& s2.selected == s.selected
            &&& cmd is None
        }),
        s.accepted() == (
            SettingsThemeState {
                selected_color: Some(
                    ColorEditState {
                        color: ThemeSetting::at(s.selected as int).color_of(s.stylesheet),
                        selected: 0,
                    },
                ),
                ..s
            },
            None::<Command>,
        ),
{
}

/// Accepting in the digit editor writes the edited colour into its own entry
/// alone and sends the stylesheet; cancelling leaves the stylesheet as it was.
pub proof fn lemma_color_edit_closed(s: SettingsThemeState, other: ThemeSetting)
    requires
        s.wf(),
        s.selected_color is Some,
        other.is_color(),
        other != ThemeSetting::at(s.selected as int),
    ensures
        ({
            let (t, e) = (ThemeSetting::at(s.selected as int), s.selected_color->0);
            let (committed, cmd, _) = s.stepped(KeyEvent::Pressed(Key::A));
            &&& t.color_of(committed.stylesheet) == e.color
            &&& other.color_of(committed.stylesheet) == other.color_of(s.stylesheet)
            &&& committed.stylesheet.enable_box_art == s.stylesheet.enable_box_art
            &&& committed.selected_color is None
            &&& cmd == Some(Command::SaveStylesheet(committed.stylesheet))
        }),
        ({
            let ss2 = ThemeSetting::at(s.selected as int).with_color(
                s.stylesheet,
                s.selected_color->0.color,
            );
            s.accepted() == (
                SettingsThemeState { stylesheet: ss2, selected_color: None, ..s },
                Some(Command::SaveStylesheet(ss2)),
            )
        }),
        ({
            let (cancelled, cmd, _) = s.stepped(KeyEvent::Pressed(Key::B));
            &&& cancelled == (SettingsThemeState { selected_color: None, ..s })
            &&& cmd is None
        }),
{
}

} // verus!
