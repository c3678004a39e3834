//! Random display colors for categories, periods and income types: a seed
//! taken from the clock is stretched into three channels, each held away
//! from the extremes, and rendered as a hex color text.

use vstd::prelude::*;

use crate::strutil::push_char;

verus! {

/// A lowercase hex digit.
pub open spec fn hex_digit_char(d: int) -> char {
    if d < 10 {
        ((48 + d) as u32) as char
    } else {
        ((87 + d) as u32) as char
    }
}

/// Whether a character is a lowercase hex digit.
pub open spec fn is_hex_digit_char(c: char) -> bool {
    (48 <= (c as u32) && (c as u32) <= 57) || (97 <= (c as u32) && (c as u32) <= 102)
}

/// A hex color text: `#` followed by six lowercase hex digits.
pub open spec fn is_hex_color(s: Seq<char>) -> bool {
    &&& s.len() == 7
    &&& s[0] == '#'
    &&& forall|i: int| 1 <= i < 7 ==> is_hex_digit_char(#[trigger] s[i])
}

fn hex_digit(d: u8) -> (c: char)
    requires
        d <= 15,
    ensures
        c == hex_digit_char(d as int),
        is_hex_digit_char(c),
{
    if d < 10 {
        (48 + d as u32) as u8 as char
    } else {
        (87 + d as u32) as u8 as char
    }
}

/// A channel value kept away from the darkest and lightest extremes.
pub open spec fn clamp_channel(v: int) -> int {
    if v < 50 {
        50
    } else if v > 220 {
        220
    } else {
        v
    }
}

/// The red channel a seed yields.
pub open spec fn red_of_seed(seed: int) -> int {
    clamp_channel((seed * 1103515245 + 12345) % 256)
}

/// The green channel a seed yields.
pub open spec fn green_of_seed(seed: int) -> int {
    clamp_channel((seed * 214013 + 2531011) % 256)
}

/// The blue channel a seed yields.
pub open spec fn blue_of_seed(seed: int) -> int {
    clamp_channel((seed * 16807) % 256)
}

/// A channel written as two lowercase hex digits.
pub open spec fn channel_hex(v: int) -> Seq<char> {
    seq![hex_digit_char(v / 16), hex_digit_char(v % 16)]
}

/// The color text a seed yields.
pub open spec fn color_of_seed(seed: int) -> Seq<char> {
    seq!['#'] + channel_hex(red_of_seed(seed)) + channel_hex(green_of_seed(seed)) + channel_hex(
        blue_of_seed(seed),
    )
}

/// The color a seed yields: three channels drawn from the seed by fixed
/// linear steps, clamped, and written in hex.
pub fn color_from_seed(seed: u64) -> (r: String)
    ensures
        r@ == color_of_seed(seed as int),
        is_hex_color(r@),
{
    let red = clamp_channel_value(((seed as u128 * 1103515245 + 12345) % 256) as u8);
    let green = clamp_channel_value(((seed as u128 * 214013 + 2531011) % 256) as u8);
    let blue = clamp_channel_value(((seed as u128 * 16807) % 256) as u8);
    let mut out = String::new();
    push_char(&mut out, '#');
    push_char(&mut out, hex_digit(red / 16));
    push_char(&mut out, hex_digit(red % 16));
    push_char(&mut out, hex_digit(green / 16));
    push_char(&mut out, hex_digit(green % 16));
    push_char(&mut out, hex_digit(blue / 16));
    push_char(&mut out, hex_digit(blue % 16));
    proof {
        assert(out@ =~= color_of_seed(seed as int));
        assert(forall|i: int| 1 <= i < 7 ==> is_hex_digit_char(#[trigger] out@[i]));
    }
    out
}

fn clamp_channel_value(v: u8) -> (r: u8)
    ensures
        r == clamp_channel(v as int),
        50 <= r <= 220,
{
    if v < 50 {
        50
    } else if v > 220 {
        220
    } else {
        v
    }
}

/// Relies on std::time::SystemTime::now and duration_since: nanoseconds
/// since the epoch, truncated to 64 bits; zero where the clock stands
/// before the epoch. The value depends on the clock, so nothing is promised
/// of it.
#[verifier::external_body]
fn now_nanos() -> u64 {
    match std::time::SystemTime::now().duration_since(std::time::UNIX_EPOCH) {
        Ok(d) => d.as_nanos() as u64,
        Err(_) => 0,
    }
}

/// A display color drawn from the clock: whatever the moment, the result
/// is a well-formed hex color.
pub fn generate_random_color() -> (r: String)
    ensures
        is_hex_color(r@),
{
    color_from_seed(now_nanos())
}

} // verus!
