//! Numbers as text: decimal numerals written and read, and the literals
//! that read as 64-bit floats.

use crate::text::{lowered, lowered_eq, to_chars};
use vstd::prelude::*;

verus! {

/// Whether `c` is one of the ten digits.
pub open spec fn is_digit(c: char) -> bool {
    '0' <= c && c <= '9'
}

/// The number that the digit `c` writes.
pub open spec fn digit_value(c: char) -> nat {
    (c as int - '0' as int) as nat
}

/// The character that writes the digit `d`.
pub open spec fn digit_char(d: nat) -> char {
    if d == 0 {
        '0'
    } else if d == 1 {
        '1'
    } else if d == 2 {
        '2'
    } else if d == 3 {
        '3'
    } else if d == 4 {
        '4'
    } else if d == 5 {
        '5'
    } else if d == 6 {
        '6'
    } else if d == 7 {
        '7'
    } else if d == 8 {
        '8'
    } else {
        '9'
    }
}

/// The decimal numeral of `n`, without sign or leading zeros.
pub open spec fn decimal_text(n: nat) -> Seq<char>
    decreases n,
{
    if n < 10 {
        seq![digit_char(n)]
    } else {
        decimal_text(n / 10).push(digit_char(n % 10))
    }
}

/// The decimal numeral of `i`, with a leading `-` when it is negative.
pub open spec fn signed_decimal_text(i: int) -> Seq<char> {
    if i < 0 {
        seq!['-'] + decimal_text((-i) as nat)
    } else {
        decimal_text(i as nat)
    }
}

/// The number that a run of digits writes; zero for the empty run.
pub open spec fn digits_value(s: Seq<char>) -> nat
    decreases s.len(),
{
    if s.len() == 0 {
        0
    } else {
        digits_value(s.drop_last()) * 10 + digit_value(s.last())
    }
}

/// Whether `s` holds digits only.
pub open spec fn all_digits(s: Seq<char>) -> bool {
    forall|i: int| 0 <= i < s.len() ==> is_digit(#[trigger] s[i])
}

/// The one-character string that writes the digit `d`.
fn digit_str(d: u64) -> (s: &'static str)
    requires
        d < 10,
    ensures
        s@ == seq![digit_char(d as nat)],
{
    proof {
        reveal_strlit("0");
        reveal_strlit("1");
        reveal_strlit("2");
        reveal_strlit("3");
        reveal_strlit("4");
        reveal_strlit("5");
        reveal_strlit("6");
        reveal_strlit("7");
        reveal_strlit("8");
        reveal_strlit("9");
    }
    let s = if d == 0 {
        "0"
    } else if d == 1 {
        "1"
    } else if d == 2 {
        "2"
    } else if d == 3 {
        "3"
    } else if d == 4 {
        "4"
    } else if d == 5 {
        "5"
    } else if d == 6 {
        "6"
    } else if d == 7 {
        "7"
    } else if d == 8 {
        "8"
    } else {
        "9"
    };
    assert(s@ =~= seq![digit_char(d as nat)]);
    s
}

/// Writes `n` in decimal.
pub fn render_decimal(n: u64) -> (s: String)
    ensures
        s@ == decimal_text(n as nat),
    decreases n,
{
    if n < 10 {
        String::from_str(digit_str(n))
    } else {
        let mut s = render_decimal(n / 10);
        s.append(digit_str(n % 10));
        s
    }
}

/// Writes `i` in decimal, with a leading `-` when it is negative.
pub fn render_signed_decimal(i: i64) -> (s: String)
    ensures
        s@ == signed_decimal_text(i as int),
{
    if i < 0 {
        let magnitude: u64 = if i == i64::MIN {
            0x8000_0000_0000_0000u64
        } else {
            (-i) as u64
        };
        proof {
            reveal_strlit("-");
        }
        let mut s = String::from_str("-");
        let digits = render_decimal(magnitude);
        s.append(digits.as_str());
        assert("-"@ =~= seq!['-']);
        s
    } else {
        render_decimal(i as u64)
    }
}

/// Why a text is no 64-bit signed integer.
#[derive(Clone, Copy, Debug, PartialEq, Eq, Structural)]
pub enum IntegerError {
    /// The text is empty.
    Empty,
    /// A character is no digit, or a sign stands alone.
    InvalidDigit,
    /// The number is above the largest value.
    PosOverflow,
    /// The number is below the smallest value.
    NegOverflow,
}

/// Whether `s` starts with a sign.
pub open spec fn has_sign(s: Seq<char>) -> bool {
    s.len() > 0 && (s[0] == '-' || s[0] == '+')
}

/// `s` without its sign, if it has one.
pub open spec fn unsigned_part(s: Seq<char>) -> Seq<char> {
    if has_sign(s) {
        s.skip(1)
    } else {
        s
    }
}

/// Whether some run of digits at the start of `body` is worth more than `limit`.
pub open spec fn exceeds(body: Seq<char>, limit: int) -> bool {
    exists|k: int|
        0 <= k <= body.len() && all_digits(#[trigger] body.take(k)) && digits_value(body.take(k))
            > limit
}

/// The 64-bit signed integer that `s` writes: an optional `+` or `-`, then
/// one or more digits and nothing else, with a value that fits. Reading from
/// the left, a number that has grown out of range is reported before a
/// character that is no digit.
pub open spec fn integer_of(s: Seq<char>) -> Result<i64, IntegerError> {
    let negative = s.len() > 0 && s[0] == '-';
    let body = unsigned_part(s);
    let limit = if negative {
        0x8000_0000_0000_0000int
    } else {
        0x7fff_ffff_ffff_ffffint
    };
    if s.len() == 0 {
        Err(IntegerError::Empty)
    } else if exceeds(body, limit) {
        Err(
            if negative {
                IntegerError::NegOverflow
            } else {
                IntegerError::PosOverflow
            },
        )
    } else if body.len() == 0 || !all_digits(body) {
        Err(IntegerError::InvalidDigit)
    } else if negative {
        Ok((-(digits_value(body) as int)) as i64)
    } else {
        Ok(digits_value(body) as i64)
    }
}

/// A run of digits is worth at least as much as any of its prefixes.
pub proof fn lemma_digits_value_prefix(s: Seq<char>, k: int)
    requires
        0 <= k <= s.len(),
    ensures
        digits_value(s.take(k)) <= digits_value(s),
    decreases s.len(),
{
    if k == s.len() {
        assert(s.take(k) =~= s);
    } else {
        lemma_digits_value_prefix(s.drop_last(), k);
        assert(s.drop_last().take(k) =~= s.take(k));
    }
}

/// A run of digits that holds a character that is no digit is no run of digits.
proof fn lemma_not_all_digits(body: Seq<char>, j: int, k: int)
    requires
        0 <= j < k <= body.len(),
        !is_digit(body[j]),
    ensures
        !all_digits(body.take(k)),
{
    assert(body.take(k)[j] == body[j]);
}

/// Reads a 64-bit signed integer written in decimal.
pub fn parse_integer(text: &str) -> (r: Result<i64, IntegerError>)
    ensures
        r == integer_of(text@),
{
    let s = to_chars(text);
    let n = s.len();
    if n == 0 {
        return Err(IntegerError::Empty);
    }
    let negative = s[0] == '-';
    let start: usize = if s[0] == '-' || s[0] == '+' {
        1
    } else {
        0
    };
    let ghost body = s@.skip(start as int);
    assert(s@.skip(0) =~= s@);
    let limit: u64 = if negative {
        0x8000_0000_0000_0000u64
    } else {
        0x7fff_ffff_ffff_ffffu64
    };
    let mut acc: u64 = 0;
    let mut i: usize = start;
    assert(body.take(0) =~= Seq::<char>::empty());
    while i < n
        invariant
            s@ == text@,
            n == s.len(),
            n > 0,
            start <= i <= n,
            body == s@.skip(start as int),
            body == unsigned_part(s@),
            negative == (s@[0] == '-'),
            limit == if negative {
                0x8000_0000_0000_0000u64
            } else {
                0x7fff_ffff_ffff_ffffu64
            },
            acc == digits_value(body.take(i - start)),
            acc <= limit,
            all_digits(body.take(i - start)),
        decreases n - i,
    {
        let c = s[i];
        let ghost j = i - start;
        let ghost seen = body.take(j);
        let ghost next = body.take(j + 1);
        assert(next.drop_last() =~= seen);
        assert(next.last() == c);
        if !('0' <= c && c <= '9') {
            proof {
                assert(body[j] == c);
                assert forall|k: int|
                    0 <= k <= body.len() && all_digits(#[trigger] body.take(k)) implies digits_value(
                    body.take(k),
                ) <= limit by {
                    if k <= j {
                        lemma_digits_value_prefix(seen, k);
                        assert(seen.take(k) =~= body.take(k));
                    } else {
                        lemma_not_all_digits(body, j, k);
                    }
                }
                assert(body.take(body.len() as int) =~= body);
                if all_digits(body) {
                    assert(is_digit(body[j]));
                }
            }
            return Err(IntegerError::InvalidDigit);
        }
        let d: u64 = (c as u32 - '0' as u32) as u64;
        assert forall|k: int| 0 <= k < next.len() implies is_digit(#[trigger] next[k]) by {
            if k < seen.len() {
                assert(next[k] == seen[k]);
            }
        }
        if acc > (limit - d) / 10 {
            assert(digits_value(next) > limit);
            return Err(
                if negative {
                    IntegerError::NegOverflow
                } else {
                    IntegerError::PosOverflow
                },
            );
        }
        acc = acc * 10 + d;
        i += 1;
    }
    proof {
        assert(body.take(body.len() as int) =~= body);
        assert forall|k: int|
            0 <= k <= body.len() && all_digits(#[trigger] body.take(k)) implies digits_value(
            body.take(k),
        ) <= limit by {
            lemma_digits_value_prefix(body, k);
        }
    }
    if i == start {
        return Err(IntegerError::InvalidDigit);
    }
    if negative {
        if acc == 0x8000_0000_0000_0000u64 {
            Ok(i64::MIN)
        } else {
            Ok(-(acc as i64))
        }
    } else {
        Ok(acc as i64)
    }
}

/// Where the run of digits that starts at `from` ends.
pub open spec fn digit_run_end(s: Seq<char>, from: int) -> int
    decreases s.len() - from,
{
    if 0 <= from < s.len() && is_digit(s[from]) {
        digit_run_end(s, from + 1)
    } else {
        from
    }
}

/// Whether the characters of `s` from `from` on are an exponent's value: an
/// optional sign, then one or more digits up to the end.
pub open spec fn is_exponent(s: Seq<char>, from: int) -> bool {
    let start = if from < s.len() && (s[from] == '+' || s[from] == '-') {
        from + 1
    } else {
        from
    };
    start < s.len() && digit_run_end(s, start) == s.len()
}

/// Whether `s` is an unsigned number: digits with at most one point among
/// them, at least one digit in all, then optionally `e` or `E` and an exponent.
pub open spec fn is_number(s: Seq<char>) -> bool {
    let int_end = digit_run_end(s, 0);
    let frac_start = if int_end < s.len() && s[int_end] == '.' {
        int_end + 1
    } else {
        int_end
    };
    let frac_end = digit_run_end(s, frac_start);
    int_end + (frac_end - frac_start) > 0 && (frac_end == s.len() || ((s[frac_end] == 'e'
        || s[frac_end] == 'E') && is_exponent(s, frac_end + 1)))
}

/// Whether `s` is a literal that reads as a 64-bit float: an optional sign,
/// then `inf`, `infinity` or `nan` in any mix of cases, or a number.
pub open spec fn is_decimal_literal(s: Seq<char>) -> bool {
    let body = unsigned_part(s);
    lowered(body) == "inf"@ || lowered(body) == "infinity"@ || lowered(body) == "nan"@
        || is_number(body)
}

/// Skips the digits that start at `from`.
fn skip_digits(s: &Vec<char>, base: usize, from: usize) -> (end: usize)
    requires
        base <= from <= s.len(),
    ensures
        from <= end <= s.len(),
        end - base == digit_run_end(s@.skip(base as int), from - base),
{
    let mut i: usize = from;
    let ghost body = s@.skip(base as int);
    while i < s.len() && '0' <= s[i] && s[i] <= '9'
        invariant
            base <= from <= i <= s.len(),
            body == s@.skip(base as int),
            digit_run_end(body, from - base) == digit_run_end(body, i - base),
        decreases s.len() - i,
    {
        assert(body[i - base] == s@[i as int]);
        i += 1;
    }
    proof {
        if i < s.len() {
            assert(body[i - base] == s@[i as int]);
        }
    }
    i
}

/// Whether the characters from `from` on are an exponent's value.
fn check_exponent(s: &Vec<char>, base: usize, from: usize) -> (b: bool)
    requires
        base <= from <= s.len(),
    ensures
        b == is_exponent(s@.skip(base as int), from - base),
{
    let n = s.len();
    let ghost body = s@.skip(base as int);
    proof {
        if from < n {
            assert(body[from - base] == s@[from as int]);
        }
    }
    let start: usize = if from < n && (s[from] == '+' || s[from] == '-') {
        from + 1
    } else {
        from
    };
    if start >= n {
        return false;
    }
    let end = skip_digits(s, base, start);
    end == n
}

/// Whether the characters from `base` on are an unsigned number.
fn check_number(s: &Vec<char>, base: usize) -> (b: bool)
    requires
        base <= s.len(),
    ensures
        b == is_number(s@.skip(base as int)),
{
    let n = s.len();
    let ghost body = s@.skip(base as int);
    let int_end = skip_digits(s, base, base);
    proof {
        if int_end < n {
            assert(body[int_end - base] == s@[int_end as int]);
        }
    }
    let frac_start: usize = if int_end < n && s[int_end] == '.' {
        int_end + 1
    } else {
        int_end
    };
    let frac_end = skip_digits(s, base, frac_start);
    if (int_end - base) + (frac_end - frac_start) == 0 {
        return false;
    }
    if frac_end == n {
        return true;
    }
    assert(body[frac_end - base] == s@[frac_end as int]);
    if !(s[frac_end] == 'e' || s[frac_end] == 'E') {
        return false;
    }
    check_exponent(s, base, frac_end + 1)
}

/// Whether `text` is a literal that reads as a 64-bit float.
pub fn check_decimal_literal(text: &str) -> (b: bool)
    ensures
        b == is_decimal_literal(text@),
{
    let s = to_chars(text);
    let base: usize = if s.len() > 0 && (s[0] == '-' || s[0] == '+') {
        1
    } else {
        0
    };
    assert(s@.skip(0) =~= s@);
    assert(s@.skip(base as int) == unsigned_part(text@));
    lowered_eq(&s, base, "inf") || lowered_eq(&s, base, "infinity") || lowered_eq(&s, base, "nan")
        || check_number(&s, base)
}

} // verus!
