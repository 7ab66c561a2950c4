use allium_settings::command::{Command, Value};
use allium_settings::geom::Rect;
use allium_settings::input::{Key, KeyEvent};
use allium_settings::list::{step_percent, SettingsList, Widget};

fn list(values: Vec<Widget>) -> SettingsList {
    let labels = values.iter().map(|_| String::from("entry")).collect();
    SettingsList::new(Rect::new(0, 0, 100, 100), labels, values, 40)
}

#[test]
fn percentage_saturates_at_the_top() {
    let mut l = list(vec![Widget::Percentage(100), Widget::Bool(false)]);
    let mut bubble = Vec::new();
    assert!(l.handle_key_event(KeyEvent::Pressed(Key::A), &mut bubble));
    assert!(l.editing);
    assert!(l.handle_key_event(KeyEvent::Pressed(Key::Right), &mut bubble));
    assert!(matches!(l.values[0], Widget::Percentage(100)));
    assert!(bubble.is_empty());
    assert!(l.handle_key_event(KeyEvent::Autorepeat(Key::Left), &mut bubble));
    assert!(matches!(l.values[0], Widget::Percentage(99)));
    assert_eq!(bubble, vec![Command::ValueChanged(0, Value::Int(99))]);
    assert!(l.handle_key_event(KeyEvent::Pressed(Key::B), &mut bubble));
    assert!(!l.editing);
}

#[test]
fn percentage_saturates_at_the_bottom() {
    assert_eq!(step_percent(0, false), 0);
    assert_eq!(step_percent(0, true), 1);
    assert_eq!(step_percent(100, true), 100);
    assert_eq!(step_percent(57, false), 56);
}

#[test]
fn list_selection_wraps() {
    let mut l = list(vec![Widget::Bool(true), Widget::Bool(false), Widget::Percentage(3)]);
    let mut bubble = Vec::new();
    l.mark_drawn();
    assert!(l.handle_key_event(KeyEvent::Pressed(Key::Up), &mut bubble));
    assert_eq!(l.selected(), 2);
    assert!(l.should_draw());
    assert!(l.handle_key_event(KeyEvent::Pressed(Key::Down), &mut bubble));
    assert_eq!(l.selected(), 0);
    assert!(!l.handle_key_event(KeyEvent::Pressed(Key::Left), &mut bubble));
    assert!(bubble.is_empty());
}

#[test]
fn bool_entry_toggles_while_editing() {
    let mut l = list(vec![Widget::Bool(false)]);
    let mut bubble = vec![Command::CloseView];
    l.handle_key_event(KeyEvent::Pressed(Key::A), &mut bubble);
    l.handle_key_event(KeyEvent::Pressed(Key::Right), &mut bubble);
    assert!(matches!(l.values[0], Widget::Bool(true)));
    assert_eq!(bubble, vec![Command::CloseView, Command::ValueChanged(0, Value::Bool(true))]);
    assert!(l.handle_key_event(KeyEvent::Pressed(Key::A), &mut bubble));
    assert!(!l.editing);
}

#[test]
fn label_entry_is_not_editable() {
    let mut l = list(vec![Widget::Label(String::from("640x480"))]);
    let mut bubble = Vec::new();
    assert!(!l.handle_key_event(KeyEvent::Pressed(Key::A), &mut bubble));
    assert!(!l.editing);
    l.select(7);
    assert_eq!(l.selected(), 0);
}
