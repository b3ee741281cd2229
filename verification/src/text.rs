//! Rendering window titles: a freshly opened window is titled
//! `"Window {N}"`, where `N` is the number of windows registered at the
//! moment of the opening shortcut.

use vstd::prelude::*;

verus! {

/// The decimal digit character for a value below ten.
pub open spec fn spec_digit_char(d: int) -> char {
    if d == 0 {
        '0'
    } else if d == 1 {
        '1'
    } else if d == 2 {
        '2'
    } else if d == 3 {
        '3'
    } else if d == 4 {
        '4'
    } else if d == 5 {
        '5'
    } else if d == 6 {
        '6'
    } else if d == 7 {
        '7'
    } else if d == 8 {
        '8'
    } else {
        '9'
    }
}

/// The decimal rendering of a number: its digits, most significant first,
/// with no leading zero except for the number zero itself.
pub open spec fn spec_decimal(n: nat) -> Seq<char>
    decreases n,
{
    if n < 10 {
        seq![spec_digit_char(n as int)]
    } else {
        spec_decimal(n / 10).push(spec_digit_char((n % 10) as int))
    }
}

/// The title a window opened by the keyboard shortcut receives when
/// `count` windows are registered at the moment of the event.
pub open spec fn spec_window_title(count: nat) -> Seq<char> {
    "Window "@ + spec_decimal(count)
}

fn digit_char(d: u64) -> (c: char)
    requires
        d < 10,
    ensures
        c == spec_digit_char(d as int),
{
    match d {
        0 => '0',
        1 => '1',
        2 => '2',
        3 => '3',
        4 => '4',
        5 => '5',
        6 => '6',
        7 => '7',
        8 => '8',
        _ => '9',
    }
}

/// Appends the decimal digits of `n` to `out`, most significant first.
fn push_decimal(out: &mut Vec<char>, n: u64)
    ensures
        final(out)@ == old(out)@ + spec_decimal(n as nat),
    decreases n,
{
    if n >= 10 {
        push_decimal(out, n / 10);
        out.push(digit_char(n % 10));
        proof {
            assert(final(out)@ =~= old(out)@ + spec_decimal(n as nat));
        }
    } else {
        out.push(digit_char(n));
        proof {
            assert(final(out)@ =~= old(out)@ + spec_decimal(n as nat));
        }
    }
}

/// Relies on `String::push`: appends exactly the given character to the
/// end of the string.
#[verifier::external_body]
fn push_char(s: &mut String, c: char)
    ensures
        final(s)@ == old(s)@.push(c),
{
    s.push(c);
}

/// Builds the title for a window opened while `count` windows are
/// registered: the word `Window`, a space, and `count` in decimal.
pub fn window_title(count: usize) -> (title: String)
    ensures
        title@ == spec_window_title(count as nat),
{
    let mut title: String = "Window ".to_owned();
    let mut digits: Vec<char> = Vec::new();
    push_decimal(&mut digits, count as u64);
    let ghost prefix = title@;
    let mut i: usize = 0;
    while i < digits.len()
        invariant
            i <= digits@.len(),
            digits@ == spec_decimal(count as nat),
            title@ == prefix + digits@.take(i as int),
            prefix == "Window "@,
        decreases digits@.len() - i,
    {
        push_char(&mut title, digits[i]);
        proof {
            assert(prefix + digits@.take(i as int) + seq![digits@[i as int]] =~= prefix
                + digits@.take(i + 1));
        }
        i = i + 1;
    }
    proof {
        assert(digits@.take(digits@.len() as int) =~= digits@);
    }
    title
}

} // verus!
