//! Small verified string helpers: character-level editing used by the form
//! fields, decimal rendering of integers, and a blank test used by the
//! validators.

use vstd::prelude::*;

verus! {

/// Relies on String::push: appends the character to the end of the string.
#[verifier::external_body]
pub fn push_char(s: &mut String, c: char)
    ensures
        final(s)@ == old(s)@.push(c),
{
    s.push(c)
}

/// Relies on String::pop: removes and returns the last character, or leaves
/// an empty string unchanged and returns nothing.
#[verifier::external_body]
pub fn pop_char(s: &mut String) -> (r: Option<char>)
    ensures
        old(s)@.len() == 0 ==> final(s)@ == old(s)@ && r is None,
        old(s)@.len() > 0 ==> final(s)@ == old(s)@.drop_last() && r == Some(old(s)@.last()),
{
    s.pop()
}

pub open spec fn char_of_digit(d: int) -> char {
    ((48 + d) as u32) as char
}

/// Decimal digits of a nonnegative number, most significant first.
pub open spec fn dec_digits(n: int) -> Seq<char>
    decreases n,
{
    if n < 10 {
        seq![char_of_digit(if n < 0 { 0 } else { n })]
    } else {
        dec_digits(n / 10).push(char_of_digit(n % 10))
    }
}

/// Decimal rendering of a signed number: a minus sign where negative.
pub open spec fn dec_string(n: int) -> Seq<char> {
    if n < 0 {
        seq!['-'] + dec_digits(-n)
    } else {
        dec_digits(n)
    }
}

/// Append the decimal digits of `n` to `out`.
pub fn append_digits(out: &mut String, n: u64)
    ensures
        final(out)@ == old(out)@ + dec_digits(n as int),
    decreases n,
{
    if n < 10 {
        push_char(out, digit_char(n as u8));
        proof {
            assert(final(out)@ =~= old(out)@ + dec_digits(n as int));
        }
    } else {
        append_digits(out, n / 10);
        push_char(out, digit_char((n % 10) as u8));
        proof {
            assert(final(out)@ =~= old(out)@ + dec_digits(n as int));
        }
    }
}

/// The character for one decimal digit.
fn digit_char(d: u8) -> (c: char)
    requires
        d <= 9,
    ensures
        c == char_of_digit(d as int),
{
    (48 + d as u32) as u8 as char
}

/// Decimal rendering of a signed 64-bit number.
pub fn i64_to_string(n: i64) -> (r: String)
    ensures
        r@ == dec_string(n as int),
{
    let mut out = String::new();
    if n < 0 {
        push_char(&mut out, '-');
        let m: u64 = (-(n as i128)) as u64;
        append_digits(&mut out, m);
        proof {
            assert(out@ =~= dec_string(n as int));
        }
    } else {
        append_digits(&mut out, n as u64);
        proof {
            assert(out@ =~= dec_string(n as int));
        }
    }
    out
}

/// Decimal rendering of a signed 32-bit number.
pub fn i32_to_string(n: i32) -> (r: String)
    ensures
        r@ == dec_string(n as int),
{
    i64_to_string(n as i64)
}

/// Texts joined with a comma and a space.
pub open spec fn joined_msgs(msgs: Seq<Seq<char>>) -> Seq<char>
    decreases msgs.len(),
{
    if msgs.len() == 0 {
        Seq::<char>::empty()
    } else if msgs.len() == 1 {
        msgs[0]
    } else {
        joined_msgs(msgs.drop_last()) + ", "@ + msgs.last()
    }
}

/// Join texts with a comma and a space.
pub fn join_messages(msgs: &Vec<String>) -> (r: String)
    ensures
        r@ == joined_msgs(msgs@.map_values(|s: String| s@)),
{
    let mut out = String::new();
    let mut i: usize = 0;
    while i < msgs.len()
        invariant
            i <= msgs@.len(),
            out@ == joined_msgs(msgs@.map_values(|s: String| s@).subrange(0, i as int)),
        decreases msgs@.len() - i,
    {
        proof {
            let views = msgs@.map_values(|s: String| s@);
            let pre = views.subrange(0, i as int);
            let nxt = views.subrange(0, i as int + 1);
            assert(nxt.drop_last() =~= pre);
            assert(nxt.last() == views[i as int]);
        }
        if i > 0 {
            out.append(", ");
        }
        out.append(msgs[i].as_str());
        i += 1;
    }
    proof {
        let views = msgs@.map_values(|s: String| s@);
        assert(views.subrange(0, views.len() as int) =~= views);
    }
    out
}

/// Whether the text holds this character.
pub fn contains_char(s: &str, c: char) -> (r: bool)
    ensures
        r == s@.contains(c),
{
    let n: usize = s.unicode_len();
    let mut i: usize = 0;
    while i < n
        invariant
            n == s@.len(),
            i <= n,
            forall|j: int| 0 <= j < i ==> s@[j] != c,
        decreases n - i,
    {
        if s.get_char(i) == c {
            return true;
        }
        i += 1;
    }
    proof {
        assert(!s@.contains(c));
    }
    false
}

pub open spec fn is_space_char(c: char) -> bool {
    c == ' ' || c == '\t' || c == '\n' || c == '\r'
}

/// A text with no visible content: every character is whitespace.
pub open spec fn is_blank(s: Seq<char>) -> bool {
    forall|i: int| 0 <= i < s.len() ==> is_space_char(#[trigger] s[i])
}

/// Whether the text holds no visible character.
pub fn text_is_blank(s: &str) -> (r: bool)
    ensures
        r <==> is_blank(s@),
{
    let n: usize = s.unicode_len();
    let mut i: usize = 0;
    while i < n
        invariant
            n == s@.len(),
            i <= n,
            forall|j: int| 0 <= j < i ==> is_space_char(#[trigger] s@[j]),
        decreases n - i,
    {
        let c = s.get_char(i);
        if !(c == ' ' || c == '\t' || c == '\n' || c == '\r') {
            return false;
        }
        i += 1;
    }
    true
}

} // verus!
