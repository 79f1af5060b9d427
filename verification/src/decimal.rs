//! Decimal text of 64-bit integers: parsing as `i64::from_str` does, and
//! formatting as `i64::to_string` does.

use vstd::prelude::*;
use crate::text::push_char;

verus! {

/// ASCII decimal digit.
pub open spec fn is_digit(c: char) -> bool {
    48 <= c as u32 <= 57
}

/// Value of an ASCII decimal digit.
pub open spec fn digit_value(c: char) -> int {
    c as u32 - 48
}

/// The character of a decimal digit `0..=9`.
pub open spec fn digit_char(d: int) -> char {
    (d + 48) as char
}

/// True when every character is an ASCII digit.
pub open spec fn all_digits(s: Seq<char>) -> bool {
    forall|i: int| 0 <= i < s.len() ==> is_digit(#[trigger] s[i])
}

/// Value of a string of decimal digits (0 for the empty string).
pub open spec fn digits_value(s: Seq<char>) -> int
    decreases s.len(),
{
    if s.len() == 0 {
        0
    } else {
        digits_value(s.drop_last()) * 10 + digit_value(s.last())
    }
}

/// What `str::parse::<i64>` returns: an optional sign (`+`, or `-`)
/// followed by at least one ASCII digit, with the value in range.
pub open spec fn i64_parse(s: Seq<char>) -> Option<i64> {
    if s.len() == 0 {
        None
    } else {
        let neg = s[0] == '-';
        let signed = s[0] == '-' || s[0] == '+';
        let ds = if signed {
            s.drop_first()
        } else {
            s
        };
        if ds.len() == 0 || !all_digits(ds) {
            None
        } else {
            let v = if neg {
                -digits_value(ds)
            } else {
                digits_value(ds)
            };
            if i64::MIN <= v <= i64::MAX {
                Some(v as i64)
            } else {
                None
            }
        }
    }
}

/// Decimal digits of a natural number, without leading zeros.
pub open spec fn nat_text(n: nat) -> Seq<char>
    decreases n,
{
    if n < 10 {
        seq![digit_char(n as int)]
    } else {
        nat_text(n / 10).push(digit_char((n % 10) as int))
    }
}

/// Decimal text of an integer, with a leading `-` when negative.
pub open spec fn int_text(n: int) -> Seq<char> {
    if n < 0 {
        seq!['-'] + nat_text((-n) as nat)
    } else {
        nat_text(n as nat)
    }
}

proof fn lemma_digit_char(d: int)
    requires
        0 <= d < 10,
    ensures
        is_digit(digit_char(d)),
        digit_value(digit_char(d)) == d,
{
}

proof fn lemma_digits_value_mono(s: Seq<char>, c: char)
    requires
        is_digit(c),
    ensures
        digits_value(s) >= 0 ==> digits_value(s.push(c)) >= digits_value(s),
        digits_value(s.push(c)) == digits_value(s) * 10 + digit_value(c),
        digits_value(s) >= 0 ==> digits_value(s.push(c)) >= 0,
{
    assert(s.push(c).drop_last() =~= s);
}

proof fn lemma_digits_value_nonneg(s: Seq<char>)
    requires
        all_digits(s),
    ensures
        digits_value(s) >= 0,
    decreases s.len(),
{
    if s.len() > 0 {
        lemma_digits_value_nonneg(s.drop_last());
    }
}

/// The text of `n` is a non-empty run of digits whose value is `n`.
pub proof fn lemma_nat_text(n: nat)
    ensures
        nat_text(n).len() > 0,
        all_digits(nat_text(n)),
        digits_value(nat_text(n)) == n,
    decreases n,
{
    if n < 10 {
        lemma_digit_char(n as int);
        assert(nat_text(n).drop_last() =~= Seq::<char>::empty());
        assert(digits_value(nat_text(n)) == digits_value(Seq::<char>::empty()) * 10 + digit_value(
            digit_char(n as int),
        ));
    } else {
        lemma_nat_text(n / 10);
        lemma_digit_char((n % 10) as int);
        assert(nat_text(n).drop_last() =~= nat_text(n / 10));
        assert(digits_value(nat_text(n)) == digits_value(nat_text(n / 10)) * 10 + digit_value(
            digit_char((n % 10) as int),
        ));
        assert((n / 10) * 10 + n % 10 == n) by (nonlinear_arith);
    }
}

/// Parsing the decimal text of any `i64` gives the number back.
pub proof fn law_i64_text_round_trip(n: i64)
    ensures
        i64_parse(int_text(n as int)) == Some(n),
{
    if n < 0 {
        let m = (-(n as int)) as nat;
        lemma_nat_text(m);
        let s = int_text(n as int);
        assert(s.drop_first() =~= nat_text(m));
    } else {
        lemma_nat_text(n as nat);
        lemma_digit_char(0);
        let s = nat_text(n as nat);
        assert(is_digit(s[0]));
    }
}

/// A number parsed from text that does not start with `-` is not negative.
pub proof fn lemma_unsigned_parse_non_negative(s: Seq<char>)
    requires
        s.len() > 0 ==> s[0] != '-',
    ensures
        i64_parse(s) matches Some(v) ==> v >= 0,
{
    if s.len() > 0 {
        let signed = s[0] == '+';
        let ds = if signed {
            s.drop_first()
        } else {
            s
        };
        if ds.len() > 0 && all_digits(ds) {
            lemma_digits_value_nonneg(ds);
        }
    }
}

/// ASCII digit test on one character.
pub fn char_is_digit(c: char) -> (r: bool)
    ensures
        r == is_digit(c),
{
    let u = c as u32;
    48 <= u && u <= 57
}

/// Parses a string as `str::parse::<i64>` does.
pub fn parse_i64_chars(s: &Vec<char>) -> (r: Option<i64>)
    ensures
        r == i64_parse(s@),
{
    let n = s.len();
    if n == 0 {
        return None;
    }
    let neg = s[0] == '-';
    let start: usize = if s[0] == '-' || s[0] == '+' {
        1
    } else {
        0
    };
    let ghost ds = if start == 1 {
        s@.drop_first()
    } else {
        s@
    };
    assert(ds =~= s@.subrange(start as int, n as int));
    if start == n {
        return None;
    }
    // 2^63 is the largest magnitude a negative i64 may have.
    let limit: u64 = if neg {
        9223372036854775808u64
    } else {
        9223372036854775807u64
    };
    let mut acc: u64 = 0;
    let mut over = false;
    let mut i: usize = start;
    while i < n
        invariant
            start <= i <= n == s@.len(),
            start < n,
            neg == (s@[0] == '-'),
            (start == 1) == (s@[0] == '-' || s@[0] == '+'),
            start <= 1,
            limit == (if neg { 9223372036854775808u64 } else { 9223372036854775807u64 }),
            ds == s@.subrange(start as int, n as int),
            all_digits(s@.subrange(start as int, i as int)),
            digits_value(s@.subrange(start as int, i as int)) >= 0,
            !over ==> acc == digits_value(s@.subrange(start as int, i as int)) && acc <= limit,
            over ==> digits_value(s@.subrange(start as int, i as int)) > limit,
        decreases n - i,
    {
        let c = s[i];
        let ghost pre = s@.subrange(start as int, i as int);
        assert(s@.subrange(start as int, i + 1) =~= pre.push(c));
        if !char_is_digit(c) {
            assert(!is_digit(ds[i - start]));
            return None;
        }
        proof {
            lemma_digits_value_mono(pre, c);
        }
        if !over {
            let d = (c as u32 - 48) as u64;
            if acc > (limit - d) / 10 {
                over = true;
                assert(acc * 10 + d > limit) by (nonlinear_arith)
                    requires
                        acc > (limit - d) / 10,
                        d <= 9,
                        limit >= 9,
                ;
            } else {
                assert(acc * 10 + d <= limit) by (nonlinear_arith)
                    requires
                        acc <= (limit - d) / 10,
                        d <= 9,
                        limit >= 9,
                ;
                acc = acc * 10 + d;
            }
        }
        i += 1;
    }
    assert(s@.subrange(start as int, n as int) == ds);
    if over {
        return None;
    }
    if neg {
        if acc == 9223372036854775808u64 {
            Some(i64::MIN)
        } else {
            Some(-(acc as i64))
        }
    } else {
        Some(acc as i64)
    }
}

/// Parses a string slice as `str::parse::<i64>` does.
pub fn parse_i64(s: &str) -> (r: Option<i64>)
    ensures
        r == i64_parse(s@),
{
    let cs = crate::text::chars_of(s);
    parse_i64_chars(&cs)
}

fn push_digit(out: &mut String, d: u64)
    requires
        d < 10,
    ensures
        final(out)@ == old(out)@.push(digit_char(d as int)),
{
    let c = ((d as u8) + 48u8) as char;
    assert(c == digit_char(d as int));
    push_char(out, c);
}

fn push_nat_text(out: &mut String, n: u64)
    ensures
        final(out)@ == old(out)@ + nat_text(n as nat),
    decreases n,
{
    if n < 10 {
        push_digit(out, n);
        assert(old(out)@.push(digit_char(n as int)) =~= old(out)@ + nat_text(n as nat));
    } else {
        push_nat_text(out, n / 10);
        push_digit(out, n % 10);
        assert((old(out)@ + nat_text((n / 10) as nat)).push(digit_char((n % 10) as int)) =~= old(
            out,
        )@ + nat_text(n as nat));
    }
}

/// Decimal text of an `i64` (`i64::to_string`).
pub fn i64_text(n: i64) -> (r: String)
    ensures
        r@ == int_text(n as int),
{
    let mut out = String::new();
    if n < 0 {
        push_char(&mut out, '-');
        let m: u64 = if n == i64::MIN {
            9223372036854775808u64
        } else {
            (-n) as u64
        };
        push_nat_text(&mut out, m);
        assert(out@ =~= seq!['-'] + nat_text(m as nat));
    } else {
        push_nat_text(&mut out, n as u64);
        assert(out@ =~= nat_text(n as nat));
    }
    out
}

/// Decimal text of a `u64` (`u64::to_string`).
pub fn u64_text(n: u64) -> (r: String)
    ensures
        r@ == nat_text(n as nat),
{
    let mut out = String::new();
    push_nat_text(&mut out, n);
    assert(out@ =~= nat_text(n as nat));
    out
}

} // verus!
