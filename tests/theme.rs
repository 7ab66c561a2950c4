use allium_settings::color::Color;
use allium_settings::command::Command;
use allium_settings::input::{Key, KeyEvent};
use allium_settings::stylesheet::Stylesheet;
use allium_settings::theme::{ColorEditState, SettingValue, SettingsThemeState, ThemeSetting};

fn custom() -> Stylesheet {
    Stylesheet {
        enable_box_art: false,
        foreground_color: Color::new(0x10, 0x20, 0x30),
        background_color: Color::new(0xF0, 0xE0, 0xD0),
        highlight_color: Color::new(0x1A, 0x2B, 0x3C),
        ..Stylesheet::default()
    }
}

fn press(k: Key) -> KeyEvent {
    KeyEvent::Pressed(k)
}

#[test]
fn accept_on_box_art_toggles_and_saves() {
    let mut s = SettingsThemeState::new(custom());
    assert_eq!(s.handle_key_event(press(Key::Down)), (None, true));
    assert_eq!(s.selected, 1);
    let (cmd, redraw) = s.handle_key_event(press(Key::A));
    assert!(redraw);
    let expected = Stylesheet { enable_box_art: true, ..custom() };
    assert_eq!(cmd, Some(Command::SaveStylesheet(expected)));
    assert!(s.stylesheet.enable_box_art);
}

#[test]
fn dark_mode_inverts_foreground_and_background() {
    let mut s = SettingsThemeState::new(custom());
    let (cmd, _) = s.handle_key_event(press(Key::A));
    let expected = Stylesheet {
        foreground_color: Color::new(0xEF, 0xDF, 0xCF),
        background_color: Color::new(0x0F, 0x1F, 0x2F),
        ..custom()
    };
    assert_eq!(cmd, Some(Command::SaveStylesheet(expected)));
    assert_eq!(s.stylesheet, expected);
}

#[test]
fn selection_wraps_around_the_entries() {
    let mut s = SettingsThemeState::new(custom());
    s.handle_key_event(KeyEvent::Autorepeat(Key::Up));
    assert_eq!(s.selected, 9);
    s.handle_key_event(press(Key::Down));
    assert_eq!(s.selected, 0);
    assert_eq!(s.handle_key_event(press(Key::Left)), (None, false));
    assert_eq!(s.handle_key_event(KeyEvent::Released(Key::A)), (None, false));
}

#[test]
fn reset_needs_two_accepts() {
    let mut s = SettingsThemeState::new(custom());
    s.handle_key_event(press(Key::Up));
    assert_eq!(s.handle_key_event(press(Key::A)), (None, true));
    assert!(s.confirm_reset);
    assert_eq!(s.stylesheet, custom());
    assert_eq!(s.handle_key_event(KeyEvent::Autorepeat(Key::Up)), (None, false));
    assert!(s.confirm_reset);
    let (cmd, redraw) = s.handle_key_event(press(Key::A));
    assert!(redraw);
    assert_eq!(cmd, Some(Command::SaveStylesheet(Stylesheet::default())));
    assert_eq!(s.stylesheet, Stylesheet::default());
    assert!(!s.confirm_reset);
}

#[test]
fn other_key_disarms_reset() {
    let mut s = SettingsThemeState::new(custom());
    s.handle_key_event(press(Key::Up));
    s.handle_key_event(press(Key::A));
    assert_eq!(s.handle_key_event(press(Key::Left)), (None, true));
    assert!(!s.confirm_reset);
    assert_eq!(s.stylesheet, custom());
    assert_eq!(s.selected, 9);
}

#[test]
fn color_edit_commits_the_edited_color() {
    let mut s = SettingsThemeState::new(custom());
    s.handle_key_event(press(Key::Down));
    s.handle_key_event(press(Key::Down));
    assert_eq!(s.handle_key_event(press(Key::A)), (None, true));
    assert_eq!(
        s.selected_color,
        Some(ColorEditState { color: Color::new(0x1A, 0x2B, 0x3C), selected: 0 })
    );
    s.handle_key_event(press(Key::Right));
    s.handle_key_event(press(Key::Down));
    let edit = s.selected_color.unwrap();
    assert_eq!(edit.color, Color::new(0x19, 0x2B, 0x3C));
    assert_eq!(s.stylesheet, custom());
    let (cmd, _) = s.handle_key_event(press(Key::A));
    let expected = Stylesheet { highlight_color: Color::new(0x19, 0x2B, 0x3C), ..custom() };
    assert_eq!(cmd, Some(Command::SaveStylesheet(expected)));
    assert_eq!(s.stylesheet, expected);
    assert!(s.selected_color.is_none());
}

#[test]
fn color_edit_cancel_keeps_the_stylesheet() {
    let mut s = SettingsThemeState::new(custom());
    for _ in 0..5 {
        s.handle_key_event(press(Key::Down));
    }
    s.handle_key_event(press(Key::A));
    s.handle_key_event(press(Key::Up));
    assert_eq!(s.handle_key_event(press(Key::B)), (None, true));
    assert_eq!(s.stylesheet, custom());
    assert!(s.selected_color.is_none());
    assert_eq!(s.selected, 5);
}

#[test]
fn digit_cursor_is_clamped() {
    let mut s = SettingsThemeState::new(custom());
    s.handle_key_event(press(Key::Down));
    s.handle_key_event(press(Key::Down));
    s.handle_key_event(press(Key::A));
    s.handle_key_event(press(Key::Left));
    assert_eq!(s.selected_color.unwrap().selected, 0);
    for _ in 0..8 {
        s.handle_key_event(KeyEvent::Autorepeat(Key::Right));
    }
    assert_eq!(s.selected_color.unwrap().selected, 5);
    s.handle_key_event(press(Key::Up));
    assert_eq!(s.selected_color.unwrap().color, Color::new(0x1A, 0x2B, 0x3D));
    assert_eq!(s.handle_key_event(press(Key::X)), (None, false));
}

#[test]
fn entries_show_the_stylesheet() {
    let mut s = SettingsThemeState::new(custom());
    let list = s.settings();
    assert_eq!(list.len(), 10);
    assert_eq!(list[0].label, "Dark Mode");
    assert!(matches!(list[0].value, SettingValue::Text("Toggle")));
    assert!(matches!(list[1].value, SettingValue::Bool(false)));
    assert!(matches!(list[2].value, SettingValue::Color(c) if c == Color::new(0x1A, 0x2B, 0x3C)));
    assert_eq!(list[9].label, "Reset to Default");
    s.handle_key_event(press(Key::Up));
    s.handle_key_event(press(Key::A));
    assert_eq!(s.settings()[9].label, "Confirm Reset?");
    assert_eq!(ThemeSetting::from_repr(3), Some(ThemeSetting::ForegroundColor));
    assert_eq!(ThemeSetting::from_repr(10), None);
}

#[test]
fn draw_plan_places_the_digit_editor() {
    let mut s = SettingsThemeState::new(custom());
    let p = s.draw_plan(640, 480);
    assert_eq!((p.region.x, p.region.y, p.region.w, p.region.h), (144, 54, 472, 418));
    assert!(p.editor.is_none());
    assert!(!p.editing);
    s.handle_key_event(press(Key::Down));
    s.handle_key_event(press(Key::Down));
    s.handle_key_event(press(Key::A));
    let p = s.draw_plan(640, 480);
    let e = p.editor.unwrap();
    assert!(p.editing);
    assert_eq!((e.region.x, e.region.y, e.region.w, e.region.h), (392, 138, 224, 42));
    assert_eq!((e.swatch.x, e.swatch.y), (616, 142));
    assert_eq!(e.digits_right, 574);
    assert_eq!(e.digits, vec!['1', 'A', '2', 'B', '3', 'C']);
    assert_eq!(e.cursor, 0);
    assert!(s.is_valid());
}
