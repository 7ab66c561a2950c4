use allium_settings::color::{step_high_nibble, step_low_nibble, Color};
use allium_settings::nav::{cursor_left, cursor_right, wrap_next, wrap_prev};

#[test]
fn high_nibble_sixteen_steps_return_the_byte() {
    for b in 0..=255u8 {
        for up in [true, false] {
            let mut x = b;
            for _ in 0..16 {
                x = step_high_nibble(x, up);
            }
            assert_eq!(x, b);
            let once = step_high_nibble(b, up);
            assert_eq!(once % 16, b % 16);
            let expected_high = if up { (b / 16 + 1) % 16 } else { (b / 16 + 15) % 16 };
            assert_eq!(once / 16, expected_high);
        }
    }
}

#[test]
fn low_nibble_steps_without_carry() {
    for b in 0..=255u8 {
        for up in [true, false] {
            let once = step_low_nibble(b, up);
            assert_eq!(once - once % 16, b - b % 16);
            let expected_low = if up { (b % 16 + 1) % 16 } else { (b % 16 + 15) % 16 };
            assert_eq!(once % 16, expected_low);
        }
    }
    assert_eq!(step_low_nibble(0x1F, true), 0x10);
    assert_eq!(step_low_nibble(0x20, false), 0x2F);
    assert_eq!(step_high_nibble(0xF3, true), 0x03);
    assert_eq!(step_high_nibble(0x03, false), 0xF3);
}

#[test]
fn low_digit_of_red_steps_down() {
    let c = Color::new(0x1A, 0x2B, 0x3C);
    let d = c.step_digit(1, false);
    assert_eq!(d, Color::new(0x19, 0x2B, 0x3C));
    for i in [0usize, 2, 3, 4, 5] {
        assert_eq!(d.digit(i), c.digit(i));
    }
    assert_eq!(d.digit(1), 0x9);
}

#[test]
fn each_digit_steps_its_own_channel() {
    let c = Color::new(0x1A, 0x2B, 0x3C);
    assert_eq!(c.step_digit(0, true), Color::new(0x2A, 0x2B, 0x3C));
    assert_eq!(c.step_digit(2, false), Color::new(0x1A, 0x1B, 0x3C));
    assert_eq!(c.step_digit(3, true), Color::new(0x1A, 0x2C, 0x3C));
    assert_eq!(c.step_digit(4, true), Color::new(0x1A, 0x2B, 0x4C));
    assert_eq!(c.step_digit(5, true), Color::new(0x1A, 0x2B, 0x3D));
    let w = Color::new(0xFF, 0xFF, 0xFF);
    assert_eq!(w.step_digit(5, true), Color::new(0xFF, 0xFF, 0xF0));
    assert_eq!(w.step_digit(0, true), Color::new(0x0F, 0xFF, 0xFF));
}

#[test]
fn hex_characters_of_a_color() {
    let c = Color::new(0x1A, 0x2B, 0x3C);
    let s: String = (0..6).map(|i| c.char(i)).collect();
    assert_eq!(s, "1A2B3C");
    let z = Color::new(0x00, 0x9F, 0xE0);
    let s: String = (0..6).map(|i| z.char(i)).collect();
    assert_eq!(s, "009FE0");
}

#[test]
fn invert_complements_each_channel() {
    assert_eq!(Color::new(0, 100, 255).invert(), Color::new(255, 155, 0));
}

#[test]
fn digit_cursor_stays_in_range() {
    assert_eq!(cursor_left(0), 0);
    assert_eq!(cursor_right(5), 5);
    for c in 0..=5usize {
        assert!(cursor_left(c) <= 5);
        assert!(cursor_right(c) <= 5);
    }
    assert_eq!(cursor_left(3), 2);
    assert_eq!(cursor_right(3), 4);
}

#[test]
fn selection_wraps_at_both_ends() {
    for n in 1..=12usize {
        assert_eq!(wrap_prev(0, n), n - 1);
        assert_eq!(wrap_next(n - 1, n), 0);
        for i in 0..n {
            assert!(wrap_prev(i, n) < n);
            assert!(wrap_next(i, n) < n);
        }
    }
    assert_eq!(wrap_prev(4, 10), 3);
    assert_eq!(wrap_next(4, 10), 5);
}

#[test]
fn any_digit_cycles_back_after_sixteen_steps() {
    let c = Color::new(0x1A, 0x2B, 0x3C);
    for i in 0..6usize {
        for up in [true, false] {
            let mut x = c;
            for step in 1..=16 {
                x = x.step_digit(i, up);
                if step < 16 {
                    assert_ne!(x, c);
                }
            }
            assert_eq!(x, c);
        }
    }
}
