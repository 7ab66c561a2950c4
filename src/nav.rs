use vstd::arithmetic::div_mod::{lemma_mod_add_multiples_vanish, lemma_mod_self_0, lemma_small_mod};
use vstd::prelude::*;

verus! {

/// The last position of the digit cursor of a colour (`RRGGBB`).
pub const LAST_DIGIT: usize = 5;

/// The cursor moved one place left, stopping at the first position.
pub open spec fn cursor_left_spec(c: int) -> int {
    if c <= 0 {
        0
    } else {
        c - 1
    }
}

/// The cursor moved one place right, stopping at the last position.
pub open spec fn cursor_right_spec(c: int) -> int {
    if c >= LAST_DIGIT {
        LAST_DIGIT as int
    } else {
        c + 1
    }
}

/// The index before `i` in a list of `n` entries, wrapping from the first to
/// the last.
pub open spec fn wrap_prev_spec(i: int, n: int) -> int {
    (i - 1) % n
}

/// The index after `i` in a list of `n` entries, wrapping from the last to
/// the first.
pub open spec fn wrap_next_spec(i: int, n: int) -> int {
    (i + 1) % n
}

pub fn cursor_left(c: usize) -> (r: usize)
    ensures
        r == cursor_left_spec(c as int),
{
    if c == 0 {
        0
    } else {
        c - 1
    }
}

pub fn cursor_right(c: usize) -> (r: usize)
    ensures
        r == cursor_right_spec(c as int),
{
    if c >= LAST_DIGIT {
        LAST_DIGIT
    } else {
        c + 1
    }
}

pub fn wrap_prev(i: usize, n: usize) -> (r: usize)
    requires
        i < n,
    ensures
        r == wrap_prev_spec(i as int, n as int),
{
    proof {
        lemma_wrap_values(i as int, n as int);
    }
    if i == 0 {
        n - 1
    } else {
        i - 1
    }
}

pub fn wrap_next(i: usize, n: usize) -> (r: usize)
    requires
        i < n,
    ensures
        r == wrap_next_spec(i as int, n as int),
{
    proof {
        lemma_wrap_values(i as int, n as int);
    }
    if i + 1 == n {
        0
    } else {
        i + 1
    }
}

/// The digit cursor never leaves `0..=5`: left at 0 stays at 0 and right at 5
/// stays at 5.
pub proof fn lemma_cursor_bounds(c: int)
    requires
        0 <= c <= LAST_DIGIT,
    ensures
        0 <= cursor_left_spec(c) <= LAST_DIGIT,
        0 <= cursor_right_spec(c) <= LAST_DIGIT,
        cursor_left_spec(0) == 0,
        cursor_right_spec(LAST_DIGIT as int) == LAST_DIGIT,
        c > 0 ==> cursor_left_spec(c) == c - 1,
        c < LAST_DIGIT ==> cursor_right_spec(c) == c + 1,
{
}

/// Moving the selection of a list of `n` entries keeps it in `0..n`; up from
/// the first entry gives the last, and down from the last gives the first.
pub proof fn lemma_wrap_bounds(i: int, n: int)
    requires
        0 <= i < n,
    ensures
        0 <= wrap_prev_spec(i, n) < n,
        0 <= wrap_next_spec(i, n) < n,
        wrap_prev_spec(0, n) == n - 1,
        wrap_next_spec(n - 1, n) == 0,
        i > 0 ==> wrap_prev_spec(i, n) == i - 1,
        i < n - 1 ==> wrap_next_spec(i, n) == i + 1,
{
    lemma_wrap_values(i, n);
    lemma_wrap_values(0, n);
    lemma_wrap_values(n - 1, n);
}

proof fn lemma_wrap_values(i: int, n: int)
    requires
        0 <= i < n,
    ensures
        wrap_prev_spec(i, n) == if i == 0 { n - 1 } else { i - 1 },
        wrap_next_spec(i, n) == if i == n - 1 { 0 } else { i + 1 },
{
    if i == 0 {
        lemma_mod_add_multiples_vanish(-1, n);
        lemma_small_mod((n - 1) as nat, n as nat);
    } else {
        lemma_small_mod((i - 1) as nat, n as nat);
    }
    if i == n - 1 {
        lemma_mod_self_0(n);
    } else {
        lemma_small_mod((i + 1) as nat, n as nat);
    }
}

} // verus!
