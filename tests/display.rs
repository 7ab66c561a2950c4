use allium_settings::command::{Command, DisplaySettings, Value};
use allium_settings::display::{resolution_text, ChildState, Display};
use allium_settings::geom::Rect;
use allium_settings::input::{Key, KeyEvent};
use allium_settings::list::Widget;

fn settings() -> DisplaySettings {
    DisplaySettings { luminance: 50, hue: 100, saturation: 0, contrast: 75 }
}

fn view(state: Option<ChildState>) -> Display {
    let labels = ["Luminance", "Hue", "Saturation", "Contrast", "Resolution"]
        .iter()
        .map(|s| s.to_string())
        .collect();
    Display::new(Rect::new(0, 0, 640, 480), settings(), 640, 480, labels, 30, 40, state)
}

#[test]
fn new_lists_the_settings_and_resolution() {
    let d = view(None);
    assert!(d.is_valid());
    assert!(matches!(d.list.values[0], Widget::Percentage(50)));
    assert!(matches!(d.list.values[3], Widget::Percentage(75)));
    match &d.list.values[4] {
        Widget::Label(s) => assert_eq!(s, "640x480"),
        _ => panic!("resolution entry is not a label"),
    }
    let r = d.list.rect;
    assert_eq!((r.x, r.y, r.w, r.h), (12, 8, 616, 396));
    assert_eq!(d.list.selected(), 0);
    assert_eq!(view(Some(ChildState { selected: 3 })).save(), ChildState { selected: 3 });
    assert_eq!(view(Some(ChildState { selected: 9 })).list.selected(), 0);
}

#[test]
fn edit_sends_a_snapshot_per_change() {
    let mut d = view(None);
    let mut bubble = Vec::new();
    let (handled, sends) = d.handle_key_event(KeyEvent::Pressed(Key::A), &mut bubble);
    assert!(handled);
    assert!(sends.is_empty());
    let (handled, sends) = d.handle_key_event(KeyEvent::Pressed(Key::Right), &mut bubble);
    assert!(handled);
    let expected = DisplaySettings { luminance: 51, ..settings() };
    assert_eq!(sends, vec![Command::SaveDisplaySettings(expected)]);
    assert_eq!(d.settings, expected);
    assert!(d.has_changed);
    assert!(bubble.is_empty());
    assert!(d.draw_plan().restart_label.is_some());
}

#[test]
fn saturated_step_sends_nothing() {
    let mut d = view(Some(ChildState { selected: 1 }));
    let mut bubble = Vec::new();
    d.handle_key_event(KeyEvent::Pressed(Key::A), &mut bubble);
    let (handled, sends) = d.handle_key_event(KeyEvent::Pressed(Key::Right), &mut bubble);
    assert!(handled);
    assert!(sends.is_empty());
    assert!(!d.has_changed);
    assert_eq!(d.settings, settings());
}

#[test]
fn bubbled_changes_are_applied_in_order() {
    let mut d = view(None);
    let mut bubble = vec![
        Command::ValueChanged(2, Value::Int(55)),
        Command::CloseView,
        Command::ValueChanged(3, Value::Int(10)),
        Command::ValueChanged(7, Value::Int(10)),
    ];
    let (handled, sends) = d.handle_key_event(KeyEvent::Pressed(Key::Down), &mut bubble);
    assert!(handled);
    let first = DisplaySettings { saturation: 55, ..settings() };
    let second = DisplaySettings { contrast: 10, ..first };
    assert_eq!(
        sends,
        vec![Command::SaveDisplaySettings(first), Command::SaveDisplaySettings(second)]
    );
    assert_eq!(d.settings, second);
    assert!(bubble.is_empty());
}

#[test]
fn cancel_closes_the_view() {
    let mut d = view(None);
    let mut bubble = Vec::new();
    let (handled, sends) = d.handle_key_event(KeyEvent::Pressed(Key::B), &mut bubble);
    assert!(handled);
    assert!(sends.is_empty());
    assert_eq!(bubble, vec![Command::CloseView]);
    let (handled, _) = d.handle_key_event(KeyEvent::Pressed(Key::X), &mut Vec::new());
    assert!(!handled);
}

#[test]
fn edit_hint_hides_on_resolution_entry() {
    let mut d = view(Some(ChildState { selected: 3 }));
    let mut bubble = Vec::new();
    d.mark_drawn();
    assert!(!d.should_draw());
    d.handle_key_event(KeyEvent::Pressed(Key::Down), &mut bubble);
    assert!(!d.show_edit_hint);
    let p = d.draw_plan();
    assert!(p.list);
    assert!(!p.edit_hint);
    let r = p.button_hints.unwrap();
    assert_eq!((r.x, r.y, r.w, r.h), (0, 442, 640, 30));
    assert_eq!((p.button_hints_anchor.x, p.button_hints_anchor.y), (628, 442));
    d.handle_key_event(KeyEvent::Pressed(Key::Down), &mut bubble);
    assert!(d.show_edit_hint);
    assert_eq!(d.bounding_box(), Rect::new(0, 0, 640, 480));
}

#[test]
fn change_to_the_held_value_sends_nothing() {
    let mut d = view(None);
    let mut bubble = vec![Command::ValueChanged(0, Value::Int(50)), Command::ValueChanged(3, Value::Int(75))];
    let (handled, sends) = d.handle_key_event(KeyEvent::Pressed(Key::Down), &mut bubble);
    assert!(handled);
    assert!(sends.is_empty());
    assert_eq!(d.settings, settings());
    assert!(!d.has_changed);
    assert!(bubble.is_empty());
    assert!(d.is_valid());
}

#[test]
fn bubbled_change_keeps_the_list_in_step() {
    let mut d = view(None);
    let mut bubble = vec![Command::ValueChanged(1, Value::Int(20))];
    let (_, sends) = d.handle_key_event(KeyEvent::Pressed(Key::Down), &mut bubble);
    assert_eq!(sends.len(), 1);
    assert!(matches!(d.list.values[1], Widget::Percentage(20)));
    assert!(d.is_valid());
}

#[test]
fn saturated_luminance_is_not_persisted() {
    let labels = (0..5).map(|i| format!("entry {}", i)).collect();
    let full = DisplaySettings { luminance: 100, ..settings() };
    let mut d = Display::new(Rect::new(0, 0, 640, 480), full, 640, 480, labels, 30, 40, None);
    let mut bubble = Vec::new();
    d.handle_key_event(KeyEvent::Pressed(Key::A), &mut bubble);
    let (handled, sends) = d.handle_key_event(KeyEvent::Pressed(Key::Right), &mut bubble);
    assert!(handled);
    assert!(sends.is_empty());
    assert_eq!(d.settings, full);
}

#[test]
fn view_may_start_left_of_the_screen() {
    let labels = (0..5).map(|i| format!("entry {}", i)).collect();
    let d = Display::new(Rect::new(-20, -10, 100, 84), settings(), 320, 240, labels, 30, 40, None);
    assert!(d.is_valid());
    let r = d.list.rect;
    assert_eq!((r.x, r.y, r.w, r.h), (-8, -2, 76, 0));
    let p = d.draw_plan();
    assert_eq!((p.button_hints_anchor.x, p.button_hints_anchor.y), (68, 36));
}

#[test]
fn resolution_text_is_decimal() {
    assert_eq!(resolution_text(0, 7), "0x7");
    assert_eq!(resolution_text(1920, 1080), "1920x1080");
    assert_eq!(resolution_text(4294967295, 10), "4294967295x10");
}
