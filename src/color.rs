use vstd::arithmetic::div_mod::lemma_add_mod_noop_right;
use vstd::prelude::*;

verus! {

/// A 24-bit RGB colour.
#[derive(Clone, Copy, Debug, PartialEq, Eq, Structural)]
pub struct Color {
    pub r: u8,
    pub g: u8,
    pub b: u8,
}

/// The signed amount that one step in direction `up` adds.
pub open spec fn step_sign(up: bool) -> int {
    if up { 1 } else { -1 }
}

/// The byte after stepping its high hex digit by one, circularly.
pub open spec fn high_step(b: int, up: bool) -> int {
    (b + 16 * step_sign(up)) % 256
}

/// The byte after stepping its low hex digit by one, circularly and without
/// carry into the high digit.
pub open spec fn low_step(b: int, up: bool) -> int {
    (b - b % 16) + (b % 16 + step_sign(up)) % 16
}

/// `high_step` applied `n` times.
pub open spec fn high_step_iter(b: int, up: bool, n: nat) -> int
    decreases n,
{
    if n == 0 {
        b
    } else {
        high_step(high_step_iter(b, up, (n - 1) as nat), up)
    }
}

/// `low_step` applied `n` times.
pub open spec fn low_step_iter(b: int, up: bool, n: nat) -> int
    decreases n,
{
    if n == 0 {
        b
    } else {
        low_step(low_step_iter(b, up, (n - 1) as nat), up)
    }
}

/// Steps the high hex digit of `b` up or down by one, wrapping from F to 0
/// and from 0 to F.
pub fn step_high_nibble(b: u8, up: bool) -> (r: u8)
    ensures
        r == high_step(b as int, up),
        r % 16 == b % 16,
{
    if up {
        b.wrapping_add(16)
    } else {
        b.wrapping_sub(16)
    }
}

/// Steps the low hex digit of `b` up or down by one, wrapping from F to 0
/// and from 0 to F, leaving the high digit as it is.
pub fn step_low_nibble(b: u8, up: bool) -> (r: u8)
    ensures
        r == low_step(b as int, up),
        r - r % 16 == b - b % 16,
{
    let hi: u8 = b - b % 16;
    let lo: u8 = if up {
        (b % 16 + 1) % 16
    } else {
        (b % 16 + 15) % 16
    };
    hi + lo
}

/// The value (0 to 15) of hex digit `i` of a colour written `RRGGBB`.
pub open spec fn digit_value(c: Color, i: int) -> int {
    let byte = c.channel(i / 2) as int;
    if i % 2 == 0 {
        byte / 16
    } else {
        byte % 16
    }
}

/// The upper-case hex character for a value below 16.
pub open spec fn hex_char(v: int) -> char {
    if v < 10 {
        (v + '0' as int) as char
    } else {
        (v - 10 + 'A' as int) as char
    }
}

impl Color {
    pub fn new(r: u8, g: u8, b: u8) -> (c: Color)
        ensures
            c == (Color { r, g, b }),
    {
        Color { r, g, b }
    }

    /// Channel `k` of the colour: 0 red, 1 green, 2 blue.
    pub open spec fn channel(self, k: int) -> u8 {
        if k == 0 {
            self.r
        } else if k == 1 {
            self.g
        } else {
            self.b
        }
    }

    /// The colour with channel `k` replaced by `v`.
    pub open spec fn with_channel(self, k: int, v: u8) -> Color {
        if k == 0 {
            Color { r: v, ..self }
        } else if k == 1 {
            Color { g: v, ..self }
        } else {
            Color { b: v, ..self }
        }
    }

    /// The colour with hex digit `i` (0 to 5, `RRGGBB`) stepped by one.
    pub open spec fn digit_stepped(self, i: int, up: bool) -> Color {
        let k = i / 2;
        let byte = self.channel(k) as int;
        let stepped = if i % 2 == 0 {
            high_step(byte, up)
        } else {
            low_step(byte, up)
        };
        self.with_channel(k, stepped as u8)
    }

    pub open spec fn inverted(self) -> Color {
        Color { r: (255 - self.r) as u8, g: (255 - self.g) as u8, b: (255 - self.b) as u8 }
    }

    /// The complementary colour: each channel `v` becomes `255 - v`.
    pub fn invert(&self) -> (c: Color)
        ensures
            c == self.inverted(),
    {
        Color { r: 255 - self.r, g: 255 - self.g, b: 255 - self.b }
    }

    /// Steps hex digit `i` of the colour (0 to 5, `RRGGBB`) up or down by one.
    /// Even digits are the high digits of red, green and blue, odd digits the
    /// low ones; no digit carries into another.
    pub fn step_digit(&self, i: usize, up: bool) -> (c: Color)
        requires
            i < 6,
        ensures
            c == self.digit_stepped(i as int, up),
            forall|j: int|
                0 <= j < 6 && j != i ==> #[trigger] digit_value(c, j) == digit_value(*self, j),
    {
        let byte: u8 = if i < 2 {
            self.r
        } else if i < 4 {
            self.g
        } else {
            self.b
        };
        let stepped: u8 = if i % 2 == 0 {
            step_high_nibble(byte, up)
        } else {
            step_low_nibble(byte, up)
        };
        if i < 2 {
            Color { r: stepped, ..*self }
        } else if i < 4 {
            Color { g: stepped, ..*self }
        } else {
            Color { b: stepped, ..*self }
        }
    }

    /// The value of hex digit `i` (0 to 5, `RRGGBB`).
    pub fn digit(&self, i: usize) -> (v: u8)
        requires
            i < 6,
        ensures
            v == digit_value(*self, i as int),
            v < 16,
    {
        let byte: u8 = if i < 2 {
            self.r
        } else if i < 4 {
            self.g
        } else {
            self.b
        };
        if i % 2 == 0 {
            byte / 16
        } else {
            byte % 16
        }
    }

    /// The upper-case hex character of digit `i` (0 to 5, `RRGGBB`).
    pub fn char(&self, i: usize) -> (ch: char)
        requires
            i < 6,
        ensures
            ch == hex_char(digit_value(*self, i as int)),
    {
        let v = self.digit(i);
        if v < 10 {
            (v + 48) as char
        } else {
            (v + 55) as char
        }
    }
}

/// Stepping the high digit sixteen times in either direction gives the byte
/// back, and one step leaves the low digit as it was.
pub proof fn lemma_high_step_cycle(b: u8, up: bool)
    ensures
        high_step_iter(b as int, up, 16) == b as int,
        high_step(b as int, up) % 16 == b as int % 16,
        0 <= high_step(b as int, up) < 256,
{
    lemma_high_step_iter(b as int, up, 16);
}

proof fn lemma_high_step_iter(b: int, up: bool, n: nat)
    requires
        0 <= b < 256,
    ensures
        high_step_iter(b, up, n) == (b + 16 * step_sign(up) * n) % 256,
    decreases n,
{
    if n > 0 {
        let m = (n - 1) as nat;
        lemma_high_step_iter(b, up, m);
        let s = 16 * step_sign(up);
        let prev = high_step_iter(b, up, m);
        assert(prev == (b + s * m) % 256);
        assert(s * n == s * m + s) by (nonlinear_arith)
            requires
                n == m + 1,
        ;
        lemma_add_mod_noop_right(s, b + s * m, 256);
        assert(high_step_iter(b, up, n) == (s + prev) % 256);
        assert(s + (b + s * m) == b + s * n);
    } else {
        assert(b % 256 == b);
    }
}

/// Stepping the low digit moves it one place round 0 to 15, leaves the high
/// digit as it was, and sixteen steps give the byte back.
pub proof fn lemma_low_step_cycle(b: u8, up: bool)
    ensures
        low_step(b as int, up) % 16 == (b as int % 16 + step_sign(up)) % 16,
        low_step(b as int, up) - low_step(b as int, up) % 16 == b as int - b as int % 16,
        0 <= low_step(b as int, up) < 256,
        low_step_iter(b as int, up, 16) == b as int,
{
    lemma_low_step_iter(b as int, up, 16);
}

proof fn lemma_low_step_iter(b: int, up: bool, n: nat)
    requires
        0 <= b < 256,
    ensures
        low_step_iter(b, up, n) == (b - b % 16) + (b % 16 + step_sign(up) * n) % 16,
    decreases n,
{
    if n > 0 {
        lemma_low_step_iter(b, up, (n - 1) as nat);
        let s = step_sign(up);
        let prev = low_step_iter(b, up, (n - 1) as nat);
        assert(s * n == s * (n - 1) + s) by (nonlinear_arith);
        assert(prev % 16 == (b % 16 + s * (n - 1)) % 16);
        lemma_add_mod_noop_right(s, b % 16 + s * (n - 1), 16);
    }
}

/// `Color::digit_stepped` applied `n` times to digit `i`.
pub open spec fn digit_step_iter(c: Color, i: int, up: bool, n: nat) -> Color
    decreases n,
{
    if n == 0 {
        c
    } else {
        digit_step_iter(c, i, up, (n - 1) as nat).digit_stepped(i, up)
    }
}

/// In the digit editor, stepping any digit sixteen times in either direction
/// gives the colour back.
pub proof fn lemma_digit_step_cycle(c: Color, i: int, up: bool)
    requires
        0 <= i < 6,
    ensures
        digit_step_iter(c, i, up, 16) == c,
{
    let k = i / 2;
    let b = c.channel(k) as int;
    lemma_digit_step_iter(c, i, up, 16);
    if i % 2 == 0 {
        lemma_high_step_iter(b, up, 16);
    } else {
        lemma_low_step_iter(b, up, 16);
    }
}

/// The byte of digit `i` after `n` steps of that digit.
spec fn digit_byte_iter(b: int, i: int, up: bool, n: nat) -> int {
    if i % 2 == 0 {
        high_step_iter(b, up, n)
    } else {
        low_step_iter(b, up, n)
    }
}

proof fn lemma_digit_step_iter(c: Color, i: int, up: bool, n: nat)
    requires
        0 <= i < 6,
    ensures
        digit_step_iter(c, i, up, n) == c.with_channel(
            i / 2,
            digit_byte_iter(c.channel(i / 2) as int, i, up, n) as u8,
        ),
        0 <= digit_byte_iter(c.channel(i / 2) as int, i, up, n) < 256,
    decreases n,
{
    let b = c.channel(i / 2) as int;
    if i % 2 == 0 {
        lemma_high_step_iter(b, up, n);
    } else {
        lemma_low_step_iter(b, up, n);
    }
    if n > 0 {
        lemma_digit_step_iter(c, i, up, (n - 1) as nat);
    }
}

} // verus!
