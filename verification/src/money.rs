//! Monetary amounts.
//!
//! Every amount in the library is an integer count of hundredths of the
//! currency unit, so sums and comparisons are exact. The form editors keep
//! the text the user typed; [`parse_amount`] turns such text into an amount
//! and is the single definition of which texts are well-formed, and
//! [`format_cents`] renders an amount back as the shortest such text.

use vstd::prelude::*;

use crate::strutil::{append_digits, char_of_digit, dec_digits, push_char};

verus! {

/// Largest amount the library accepts: one less than 10^14 hundredths,
/// i.e. any value whose integer part has at most twelve digits.
pub const MAX_AMOUNT_CENTS: i64 = 99_999_999_999_999;

pub open spec fn is_digit_char(c: char) -> bool {
    48 <= (c as u32) && (c as u32) <= 57
}

pub open spec fn digit_val(c: char) -> int {
    (c as u32) - 48
}

pub open spec fn all_digits(s: Seq<char>) -> bool {
    forall|i: int| 0 <= i < s.len() ==> is_digit_char(#[trigger] s[i])
}

/// Value of a sequence of decimal digits, most significant first.
pub open spec fn digits_value(s: Seq<char>) -> int
    decreases s.len(),
{
    if s.len() == 0 {
        0
    } else {
        digits_value(s.drop_last()) * 10 + digit_val(s.last())
    }
}

/// Value in hundredths contributed by up to two fraction digits.
pub open spec fn frac_value(s: Seq<char>) -> int {
    if s.len() == 0 {
        0
    } else if s.len() == 1 {
        digit_val(s[0]) * 10
    } else {
        digit_val(s[0]) * 10 + digit_val(s[1])
    }
}

/// A well-formed split of an amount text into integer and fraction digits.
pub open spec fn is_money_split(ip: Seq<char>, fp: Seq<char>) -> bool {
    &&& all_digits(ip)
    &&& all_digits(fp)
    &&& ip.len() + fp.len() >= 1
    &&& ip.len() <= 12
    &&& fp.len() <= 2
}

pub open spec fn split_value(ip: Seq<char>, fp: Seq<char>) -> int {
    digits_value(ip) * 100 + frac_value(fp)
}

/// Texts accepted as amounts: decimal digits with at most one point,
/// at least one digit, at most twelve integer digits and at most two
/// fraction digits.
pub open spec fn is_money_text(s: Seq<char>) -> bool {
    ||| (all_digits(s) && 1 <= s.len() <= 12)
    ||| (exists|k: int|
        0 <= k < s.len() && s[k] == '.' && is_money_split(
            s.subrange(0, k),
            s.subrange(k + 1, s.len() as int),
        ))
}

/// The amount, in hundredths, denoted by a well-formed text.
pub open spec fn money_value_of(s: Seq<char>) -> int {
    if all_digits(s) {
        digits_value(s) * 100
    } else {
        let k = choose|k: int|
            0 <= k < s.len() && s[k] == '.' && is_money_split(
                s.subrange(0, k),
                s.subrange(k + 1, s.len() as int),
            );
        split_value(s.subrange(0, k), s.subrange(k + 1, s.len() as int))
    }
}

proof fn lemma_digits_value_bound(s: Seq<char>)
    requires
        all_digits(s),
    ensures
        0 <= digits_value(s),
        s.len() <= 12 ==> digits_value(s) < 1_000_000_000_000,
    decreases s.len(),
{
    if s.len() > 0 {
        assert(all_digits(s.drop_last())) by {
            assert(forall|i: int|
                0 <= i < s.len() - 1 ==> is_digit_char(#[trigger] s.drop_last()[i]));
        }
        lemma_digits_value_bound(s.drop_last());
        lemma_digits_value_small(s);
    }
}

/// A digit sequence of length at most `n` has value below 10^n, for the
/// lengths that an amount's integer part can have.
proof fn lemma_digits_value_small(s: Seq<char>)
    requires
        all_digits(s),
    ensures
        0 <= digits_value(s),
        s.len() <= 1 ==> digits_value(s) < 10,
        s.len() <= 2 ==> digits_value(s) < 100,
        s.len() <= 3 ==> digits_value(s) < 1000,
        s.len() <= 4 ==> digits_value(s) < 10000,
        s.len() <= 5 ==> digits_value(s) < 100000,
        s.len() <= 6 ==> digits_value(s) < 1000000,
        s.len() <= 7 ==> digits_value(s) < 10000000,
        s.len() <= 8 ==> digits_value(s) < 100000000,
        s.len() <= 9 ==> digits_value(s) < 1000000000,
        s.len() <= 10 ==> digits_value(s) < 10000000000,
        s.len() <= 11 ==> digits_value(s) < 100000000000,
        s.len() <= 12 ==> digits_value(s) < 1000000000000,
    decreases s.len(),
{
    if s.len() > 0 {
        assert(all_digits(s.drop_last())) by {
            assert(forall|i: int|
                0 <= i < s.len() - 1 ==> is_digit_char(#[trigger] s.drop_last()[i]));
        }
        lemma_digits_value_small(s.drop_last());
        assert(is_digit_char(s.last()));
        assert(0 <= digit_val(s.last()) <= 9);
    }
}

/// Bounds of a well-formed amount: nonnegative and at most
/// [`MAX_AMOUNT_CENTS`].
pub proof fn lemma_money_value_bounds(s: Seq<char>)
    requires
        is_money_text(s),
    ensures
        0 <= money_value_of(s) <= MAX_AMOUNT_CENTS,
{
    if all_digits(s) && 1 <= s.len() <= 12 {
        lemma_digits_value_bound(s);
    } else {
        let k = choose|k: int|
            0 <= k < s.len() && s[k] == '.' && is_money_split(
                s.subrange(0, k),
                s.subrange(k + 1, s.len() as int),
            );
        assert(!all_digits(s)) by {
            assert(!is_digit_char(s[k]));
        }
        let ip = s.subrange(0, k);
        let fp = s.subrange(k + 1, s.len() as int);
        lemma_digits_value_bound(ip);
        if fp.len() >= 1 {
            assert(is_digit_char(fp[0]));
        }
        if fp.len() >= 2 {
            assert(is_digit_char(fp[1]));
        }
    }
}

/// Parse an amount text into hundredths.
///
/// Returns `Some` exactly on the texts that [`is_money_text`] describes,
/// and then yields the denoted value.
pub fn parse_amount(s: &str) -> (r: Option<i64>)
    ensures
        r is Some <==> is_money_text(s@),
        match r {
            Some(v) => v == money_value_of(s@) && 0 <= v <= MAX_AMOUNT_CENTS,
            None => true,
        },
{
    let n: usize = s.unicode_len();
    if n == 0 {
        assert(!is_money_text(s@));
        return None;
    }
    let mut dot: Option<usize> = None;
    let mut i: usize = 0;
    while i < n
        invariant
            0 < n == s@.len(),
            i <= n,
            match dot {
                Some(d) => d < i && s@[d as int] == '.' && (forall|j: int|
                    0 <= j < i && j != d ==> is_digit_char(#[trigger] s@[j])),
                None => forall|j: int| 0 <= j < i ==> is_digit_char(#[trigger] s@[j]),
            },
        decreases n - i,
    {
        let c = s.get_char(i);
        let u = c as u32;
        if c == '.' {
            if dot.is_some() {
                // A second point: no split can put digits on both sides of it.
                proof {
                    let d = dot->Some_0 as int;
                    assert forall|k: int|
                        0 <= k < s@.len() && s@[k] == '.' implies !is_money_split(
                        s@.subrange(0, k),
                        s@.subrange(k + 1, s@.len() as int),
                    ) by {
                        if k < i as int {
                            if k != d {
                                assert(is_digit_char(s@[k]));
                                assert(false);
                            } else {
                                assert(s@.subrange(k + 1, s@.len() as int)[i - k - 1]
                                    == s@[i as int]);
                            }
                        } else {
                            assert(s@.subrange(0, k)[d] == s@[d]);
                        }
                    }
                    assert(!all_digits(s@)) by {
                        assert(!is_digit_char(s@[d]));
                    }
                }
                return None;
            }
            dot = Some(i);
        } else if !(48 <= u && u <= 57) {
            // A character that is neither digit nor point refutes every reading.
            proof {
                let bad = i as int;
                assert(!all_digits(s@)) by {
                    assert(!is_digit_char(s@[bad]));
                }
                assert forall|k: int|
                    0 <= k < s@.len() && s@[k] == '.' implies !is_money_split(
                    s@.subrange(0, k),
                    s@.subrange(k + 1, s@.len() as int),
                ) by {
                    if k < bad {
                        assert(s@.subrange(k + 1, s@.len() as int)[bad - k - 1] == s@[bad]);
                    } else if k > bad {
                        assert(s@.subrange(0, k)[bad] == s@[bad]);
                    }
                }
            }
            return None;
        }
        i += 1;
    }
    match dot {
        None => {
            if n > 12 {
                proof {
                    assert(!is_money_text(s@)) by {
                        assert forall|k: int| 0 <= k < s@.len() implies s@[k] != '.' by {
                            assert(is_digit_char(s@[k]));
                        }
                    }
                }
                None
            } else {
                let v = digits_to_cents(s, 0, n);
                proof {
                    assert(s@.subrange(0, n as int) =~= s@);
                    lemma_digits_value_bound(s@);
                }
                Some(v * 100)
            }
        },
        Some(d) => {
            let ip_len: usize = d;
            let fp_len: usize = n - d - 1;
            proof {
                let ip = s@.subrange(0, d as int);
                let fp = s@.subrange(d as int + 1, s@.len() as int);
                assert(all_digits(ip));
                assert(all_digits(fp));
                assert(!all_digits(s@)) by {
                    assert(!is_digit_char(s@[d as int]));
                }
                // Any point in the text is the one we found.
                assert forall|k: int| 0 <= k < s@.len() && s@[k] == '.' implies k == d as int by {
                    if k != d as int {
                        assert(is_digit_char(s@[k]));
                    }
                }
            }
            if ip_len + fp_len < 1 || ip_len > 12 || fp_len > 2 {
                proof {
                    let ip = s@.subrange(0, d as int);
                    let fp = s@.subrange(d as int + 1, s@.len() as int);
                    assert(!is_money_split(ip, fp));
                    assert(!is_money_text(s@));
                }
                None
            } else {
                let ipv = digits_to_cents(s, 0, d);
                let mut frac: i64 = 0;
                if fp_len >= 1 {
                    let c0 = s.get_char(d + 1);
                    frac = ((c0 as u32 - 48) * 10) as i64;
                }
                if fp_len >= 2 {
                    let c1 = s.get_char(d + 2);
                    frac = frac + (c1 as u32 - 48) as i64;
                }
                proof {
                    let ip = s@.subrange(0, d as int);
                    let fp = s@.subrange(d as int + 1, s@.len() as int);
                    assert(is_money_split(ip, fp));
                    assert(is_money_text(s@));
                    lemma_digits_value_bound(ip);
                    if fp.len() >= 1 {
                        assert(fp[0] == s@[d + 1]);
                        assert(is_digit_char(fp[0]));
                    }
                    if fp.len() >= 2 {
                        assert(fp[1] == s@[d + 2]);
                        assert(is_digit_char(fp[1]));
                    }
                    assert(frac == frac_value(fp));
                    let kk = choose|k: int|
                        0 <= k < s@.len() && s@[k] == '.' && is_money_split(
                            s@.subrange(0, k),
                            s@.subrange(k + 1, s@.len() as int),
                        );
                    assert(kk == d as int);
                }
                Some(ipv * 100 + frac)
            }
        },
    }
}

/// Shortest text for a nonnegative amount: fraction digits only where the
/// amount has them.
pub open spec fn format_magnitude(m: int) -> Seq<char> {
    let w = m / 100;
    let r = m % 100;
    if r == 0 {
        dec_digits(w)
    } else if r % 10 == 0 {
        dec_digits(w) + seq!['.', char_of_digit(r / 10)]
    } else {
        dec_digits(w) + seq!['.', char_of_digit(r / 10), char_of_digit(r % 10)]
    }
}

/// Shortest text for an amount, a minus sign where negative.
pub open spec fn format_cents_spec(v: int) -> Seq<char> {
    if v < 0 {
        seq!['-'] + format_magnitude(-v)
    } else {
        format_magnitude(v)
    }
}

/// Text for an amount with the fraction always written in two digits.
pub open spec fn format_cents_two_spec(v: int) -> Seq<char> {
    let sign: Seq<char> = if v < 0 {
        seq!['-']
    } else {
        seq![]
    };
    let m = if v < 0 {
        -v
    } else {
        v
    };
    sign + dec_digits(m / 100) + seq!['.', char_of_digit((m % 100) / 10), char_of_digit(m % 10)]
}

/// Render an amount as its shortest decimal text.
pub fn format_cents(v: i64) -> (r: String)
    ensures
        r@ == format_cents_spec(v as int),
{
    let mut out = String::new();
    let m: u64 = if v < 0 {
        push_char(&mut out, '-');
        (-(v as i128)) as u64
    } else {
        v as u64
    };
    let rem: u64 = m % 100;
    append_digits(&mut out, m / 100);
    if rem != 0 {
        push_char(&mut out, '.');
        push_char(&mut out, digit_to_char((rem / 10) as u8));
        if rem % 10 != 0 {
            push_char(&mut out, digit_to_char((rem % 10) as u8));
        }
    }
    proof {
        assert(out@ =~= format_cents_spec(v as int));
    }
    out
}

/// Render an amount with exactly two fraction digits.
pub fn format_cents_two(v: i64) -> (r: String)
    ensures
        r@ == format_cents_two_spec(v as int),
{
    let mut out = String::new();
    let m: u64 = if v < 0 {
        push_char(&mut out, '-');
        (-(v as i128)) as u64
    } else {
        v as u64
    };
    let rem: u64 = m % 100;
    append_digits(&mut out, m / 100);
    push_char(&mut out, '.');
    push_char(&mut out, digit_to_char((rem / 10) as u8));
    push_char(&mut out, digit_to_char((rem % 10) as u8));
    proof {
        assert(out@ =~= format_cents_two_spec(v as int));
    }
    out
}

fn digit_to_char(d: u8) -> (c: char)
    requires
        d <= 9,
    ensures
        c == char_of_digit(d as int),
{
    (48 + d as u32) as u8 as char
}

/// The amount an editable text denotes: its value where well-formed, zero
/// otherwise.
pub open spec fn input_amount(s: Seq<char>) -> int {
    if is_money_text(s) {
        money_value_of(s)
    } else {
        0
    }
}

/// Value of the digit run `s[from..to]`, as an amount's integer part.
fn digits_to_cents(s: &str, from: usize, to: usize) -> (v: i64)
    requires
        from <= to <= s@.len(),
        to - from <= 12,
        all_digits(s@.subrange(from as int, to as int)),
    ensures
        v == digits_value(s@.subrange(from as int, to as int)),
        0 <= v < 1_000_000_000_000,
{
    let ghost whole = s@.subrange(from as int, to as int);
    let mut acc: i64 = 0;
    let mut i: usize = from;
    while i < to
        invariant
            from <= i <= to <= s@.len(),
            to - from <= 12,
            all_digits(s@.subrange(from as int, to as int)),
            whole == s@.subrange(from as int, to as int),
            acc == digits_value(s@.subrange(from as int, i as int)),
            0 <= acc < 1_000_000_000_000,
        decreases to - i,
    {
        let c = s.get_char(i);
        proof {
            assert(s@.subrange(from as int, to as int)[i - from] == s@[i as int]);
            let pre = s@.subrange(from as int, i as int);
            lemma_digits_value_small(pre);
            assert(pre.len() <= 11);
            assert(digits_value(pre) < 100000000000);
            let nxt = s@.subrange(from as int, i as int + 1);
            assert(nxt.drop_last() =~= pre);
            assert(nxt.last() == s@[i as int]);
        }
        acc = acc * 10 + (c as u32 - 48) as i64;
        i += 1;
    }
    proof {
        lemma_digits_value_small(whole);
    }
    acc
}

} // verus!
