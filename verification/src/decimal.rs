//! Integers as decimal text: what the text of a number is, which texts are
//! numbers, and that reading the text of a number gives the number back.

use vstd::prelude::*;
use vstd::std_specs::iter::IteratorSpec;
use crate::error::IntErrorKind;

verus! {

/// Whether `c` is one of the ten ASCII decimal digits.
pub open spec fn is_digit(c: char) -> bool {
    '0' <= c <= '9'
}

/// The number that the digit `c` stands for.
pub open spec fn digit_value(c: char) -> int {
    c as int - 48
}

/// The digit that stands for `d`, for `0 <= d <= 9`.
pub open spec fn digit_char(d: int) -> char {
    ((d + 48) as u8) as char
}

/// The decimal text of `n`: no sign, no leading zero but for zero itself.
pub open spec fn nat_repr(n: nat) -> Seq<char>
    decreases n,
{
    if n < 10 {
        seq![digit_char(n as int)]
    } else {
        nat_repr(n / 10).push(digit_char((n % 10) as int))
    }
}

/// The decimal text of `i`: a minus sign in front of a negative number.
pub open spec fn int_repr(i: int) -> Seq<char> {
    if i < 0 {
        seq!['-'] + nat_repr((-i) as nat)
    } else {
        nat_repr(i as nat)
    }
}

/// Reads the digits of `s` from left to right onto `acc`, counting upwards.
/// The first character that is no digit, or that takes the number above
/// `max`, ends the reading with its error.
pub open spec fn read_up(s: Seq<char>, acc: int, max: int) -> Result<int, IntErrorKind>
    decreases s.len(),
{
    if s.len() == 0 {
        Ok(acc)
    } else if !is_digit(s[0]) {
        Err(IntErrorKind::InvalidDigit)
    } else if acc * 10 + digit_value(s[0]) > max {
        Err(IntErrorKind::PosOverflow)
    } else {
        read_up(s.drop_first(), acc * 10 + digit_value(s[0]), max)
    }
}

/// Reads the digits of `s` from left to right onto `acc`, counting downwards.
/// The first character that is no digit, or that takes the number below
/// `min`, ends the reading with its error.
pub open spec fn read_down(s: Seq<char>, acc: int, min: int) -> Result<int, IntErrorKind>
    decreases s.len(),
{
    if s.len() == 0 {
        Ok(acc)
    } else if !is_digit(s[0]) {
        Err(IntErrorKind::InvalidDigit)
    } else if acc * 10 - digit_value(s[0]) < min {
        Err(IntErrorKind::NegOverflow)
    } else {
        read_down(s.drop_first(), acc * 10 - digit_value(s[0]), min)
    }
}

/// The integer between `min` and `max` that the text `s` stands for: an
/// optional sign (`-` only where `min` is negative), then one digit or more.
pub open spec fn parse_int(s: Seq<char>, min: int, max: int) -> Result<int, IntErrorKind> {
    if s.len() == 0 {
        Err(IntErrorKind::Empty)
    } else if s.len() == 1 && (s[0] == '+' || s[0] == '-') {
        Err(IntErrorKind::InvalidDigit)
    } else if s[0] == '+' {
        read_up(s.drop_first(), 0, max)
    } else if s[0] == '-' && min < 0 {
        read_down(s.drop_first(), 0, min)
    } else {
        read_up(s, 0, max)
    }
}

/// Reading `a` and then `b` is reading `a + b`.
pub proof fn lemma_read_up_concat(a: Seq<char>, b: Seq<char>, acc: int, max: int)
    ensures
        read_up(a + b, acc, max) == match read_up(a, acc, max) {
            Ok(mid) => read_up(b, mid, max),
            Err(kind) => Err(kind),
        },
    decreases a.len(),
{
    if a.len() == 0 {
        assert(a + b =~= b);
    } else {
        assert((a + b)[0] == a[0]);
        assert((a + b).drop_first() =~= a.drop_first() + b);
        if is_digit(a[0]) && acc * 10 + digit_value(a[0]) <= max {
            lemma_read_up_concat(a.drop_first(), b, acc * 10 + digit_value(a[0]), max);
        }
    }
}

/// Reading `a` and then `b` is reading `a + b`.
pub proof fn lemma_read_down_concat(a: Seq<char>, b: Seq<char>, acc: int, min: int)
    ensures
        read_down(a + b, acc, min) == match read_down(a, acc, min) {
            Ok(mid) => read_down(b, mid, min),
            Err(kind) => Err(kind),
        },
    decreases a.len(),
{
    if a.len() == 0 {
        assert(a + b =~= b);
    } else {
        assert((a + b)[0] == a[0]);
        assert((a + b).drop_first() =~= a.drop_first() + b);
        if is_digit(a[0]) && acc * 10 - digit_value(a[0]) >= min {
            lemma_read_down_concat(a.drop_first(), b, acc * 10 - digit_value(a[0]), min);
        }
    }
}

/// What is read upwards lies between where the reading began and `max`.
pub proof fn lemma_read_up_range(s: Seq<char>, acc: int, max: int)
    requires
        0 <= acc <= max,
    ensures
        read_up(s, acc, max) matches Ok(value) ==> acc <= value <= max,
    decreases s.len(),
{
    if s.len() > 0 && is_digit(s[0]) && acc * 10 + digit_value(s[0]) <= max {
        lemma_read_up_range(s.drop_first(), acc * 10 + digit_value(s[0]), max);
    }
}

/// What is read downwards lies between `min` and where the reading began.
pub proof fn lemma_read_down_range(s: Seq<char>, acc: int, min: int)
    requires
        min <= acc <= 0,
    ensures
        read_down(s, acc, min) matches Ok(value) ==> min <= value <= acc,
    decreases s.len(),
{
    if s.len() > 0 && is_digit(s[0]) && acc * 10 - digit_value(s[0]) >= min {
        lemma_read_down_range(s.drop_first(), acc * 10 - digit_value(s[0]), min);
    }
}

/// An integer that was read lies between `min` and `max`.
pub proof fn lemma_parse_int_range(s: Seq<char>, min: int, max: int)
    requires
        min <= 0 <= max,
    ensures
        parse_int(s, min, max) matches Ok(value) ==> min <= value <= max,
{
    if s.len() > 0 {
        lemma_read_up_range(s.drop_first(), 0, max);
        lemma_read_up_range(s, 0, max);
        lemma_read_down_range(s.drop_first(), 0, min);
    }
}

/// A digit's character is a digit, and stands for it.
pub proof fn lemma_digit_char(d: int)
    requires
        0 <= d <= 9,
    ensures
        is_digit(digit_char(d)),
        digit_value(digit_char(d)) == d,
        digit_char(d) != '+',
        digit_char(d) != '-',
{
}

/// The text of a number is not empty and starts with a digit.
pub proof fn lemma_nat_repr_starts_with_digit(n: nat)
    ensures
        nat_repr(n).len() >= 1,
        is_digit(nat_repr(n)[0]),
    decreases n,
{
    if n < 10 {
        lemma_digit_char(n as int);
    } else {
        lemma_nat_repr_starts_with_digit(n / 10);
    }
}

/// Counting upwards, the text of `n` reads as `n` wherever `n` is in reach.
pub proof fn lemma_read_up_nat_repr(n: nat, max: int)
    requires
        n <= max,
    ensures
        read_up(nat_repr(n), 0, max) == Ok::<int, IntErrorKind>(n as int),
    decreases n,
{
    if n < 10 {
        lemma_digit_char(n as int);
        let s = nat_repr(n);
        assert(s.drop_first() =~= Seq::<char>::empty());
        assert(read_up(s.drop_first(), n as int, max) == Ok::<int, IntErrorKind>(n as int));
    } else {
        let head = nat_repr(n / 10);
        let d = (n % 10) as int;
        let tail = seq![digit_char(d)];
        lemma_digit_char(d);
        lemma_read_up_nat_repr(n / 10, max);
        assert(head.push(digit_char(d)) =~= head + tail);
        lemma_read_up_concat(head, tail, 0, max);
        assert(tail.drop_first() =~= Seq::<char>::empty());
        assert(read_up(tail.drop_first(), n as int, max) == Ok::<int, IntErrorKind>(n as int));
        assert((n / 10) * 10 + d == n);
    }
}

/// Counting downwards, the text of `n` reads as `-n` wherever `-n` is in reach.
pub proof fn lemma_read_down_nat_repr(n: nat, min: int)
    requires
        min <= -n,
    ensures
        read_down(nat_repr(n), 0, min) == Ok::<int, IntErrorKind>(-(n as int)),
    decreases n,
{
    if n < 10 {
        lemma_digit_char(n as int);
        let s = nat_repr(n);
        assert(s.drop_first() =~= Seq::<char>::empty());
        assert(read_down(s.drop_first(), -(n as int), min) == Ok::<int, IntErrorKind>(-(n as int)));
    } else {
        let head = nat_repr(n / 10);
        let d = (n % 10) as int;
        let tail = seq![digit_char(d)];
        lemma_digit_char(d);
        lemma_read_down_nat_repr(n / 10, min);
        assert(head.push(digit_char(d)) =~= head + tail);
        lemma_read_down_concat(head, tail, 0, min);
        assert(tail.drop_first() =~= Seq::<char>::empty());
        assert(read_down(tail.drop_first(), -(n as int), min) == Ok::<int, IntErrorKind>(
            -(n as int),
        ));
        assert((n / 10) * 10 + d == n);
    }
}

/// The text of an integer reads as that integer: for every `i` between
/// `min` and `max`, with `min <= 0`, `parse_int(int_repr(i), min, max)` is
/// `Ok(i)`.
pub proof fn lemma_parse_int_repr(i: int, min: int, max: int)
    requires
        min <= i <= max,
        min <= 0,
    ensures
        parse_int(int_repr(i), min, max) == Ok::<int, IntErrorKind>(i),
{
    if i < 0 {
        let n = (-i) as nat;
        let s = int_repr(i);
        lemma_nat_repr_starts_with_digit(n);
        assert(s.drop_first() =~= nat_repr(n));
        lemma_read_down_nat_repr(n, min);
    } else {
        let n = i as nat;
        lemma_nat_repr_starts_with_digit(n);
        lemma_read_up_nat_repr(n, max);
    }
}

/// The one-character text of the digit `d`.
fn digit_str(d: u8) -> (text: &'static str)
    requires
        d < 10,
    ensures
        text@ == seq![digit_char(d as int)],
{
    proof {
        reveal_strlit("0");
        reveal_strlit("1");
        reveal_strlit("2");
        reveal_strlit("3");
        reveal_strlit("4");
        reveal_strlit("5");
        reveal_strlit("6");
        reveal_strlit("7");
        reveal_strlit("8");
        reveal_strlit("9");
    }
    let text = match d {
        0 => "0",
        1 => "1",
        2 => "2",
        3 => "3",
        4 => "4",
        5 => "5",
        6 => "6",
        7 => "7",
        8 => "8",
        _ => "9",
    };
    assert(text@ =~= seq![digit_char(d as int)]);
    text
}

/// Appends the decimal text of `v` to `out`.
fn push_nat(out: &mut String, v: u128)
    ensures
        final(out)@ == old(out)@ + nat_repr(v as nat),
    decreases v,
{
    if v >= 10 {
        push_nat(out, v / 10);
    }
    out.append(digit_str((v % 10) as u8));
    proof {
        let digit = digit_char((v % 10) as int);
        if v >= 10 {
            assert(old(out)@ + nat_repr((v / 10) as nat) + seq![digit] =~= old(out)@ + nat_repr(
                (v / 10) as nat,
            ).push(digit));
        }
    }
}

/// The decimal text of `v`.
pub fn format_unsigned(v: u128) -> (text: String)
    ensures
        text@ == nat_repr(v as nat),
{
    let mut text = String::new();
    push_nat(&mut text, v);
    assert(text@ =~= nat_repr(v as nat));
    text
}

/// The decimal text of `v`.
pub fn format_signed(v: i128) -> (text: String)
    ensures
        text@ == int_repr(v as int),
{
    if v < 0 {
        let magnitude: u128 = if v == i128::MIN {
            170141183460469231731687303715884105728u128
        } else {
            (-v) as u128
        };
        let mut text = String::from_str("-");
        proof {
            reveal_strlit("-");
        }
        push_nat(&mut text, magnitude);
        assert(text@ =~= int_repr(v as int));
        text
    } else {
        format_unsigned(v as u128)
    }
}

/// Reads the digits of `s`, counting upwards from zero and not above `max`.
fn read_digits_up(s: &str, max: u128) -> (r: Result<u128, IntErrorKind>)
    ensures
        r matches Ok(v) ==> v <= max && read_up(s@, 0, max as int) == Ok::<int, IntErrorKind>(
            v as int,
        ),
        r matches Err(kind) ==> read_up(s@, 0, max as int) == Err::<int, IntErrorKind>(kind),
{
    let mut acc: u128 = 0;
    let mut chars = s.chars();
    let ghost mut at: int = 0;
    loop
        invariant
            0 <= at <= s@.len(),
            chars.remaining() == s@.skip(at),
            acc <= max,
            read_up(s@, 0, max as int) == read_up(s@.skip(at), acc as int, max as int),
        decreases s@.len() - at,
    {
        match chars.next() {
            None => {
                return Ok(acc);
            },
            Some(c) => {
                proof {
                    assert(c == s@.skip(at)[0]);
                    assert(s@.skip(at).drop_first() =~= s@.skip(at + 1));
                    at = at + 1;
                }
                if !('0' <= c && c <= '9') {
                    return Err(IntErrorKind::InvalidDigit);
                }
                let digit: u128 = (c as u8 - 48) as u128;
                let next = match acc.checked_mul(10) {
                    None => {
                        return Err(IntErrorKind::PosOverflow);
                    },
                    Some(tens) => match tens.checked_add(digit) {
                        None => {
                            return Err(IntErrorKind::PosOverflow);
                        },
                        Some(next) => next,
                    },
                };
                if next > max {
                    return Err(IntErrorKind::PosOverflow);
                }
                acc = next;
            },
        }
    }
}

/// Reads the digits of `s`, counting downwards from zero and not below `min`.
fn read_digits_down(s: &str, min: i128) -> (r: Result<i128, IntErrorKind>)
    requires
        min <= 0,
    ensures
        r matches Ok(v) ==> read_down(s@, 0, min as int) == Ok::<int, IntErrorKind>(v as int),
        r matches Err(kind) ==> read_down(s@, 0, min as int) == Err::<int, IntErrorKind>(kind),
{
    let mut acc: i128 = 0;
    let mut chars = s.chars();
    let ghost mut at: int = 0;
    loop
        invariant
            0 <= at <= s@.len(),
            chars.remaining() == s@.skip(at),
            min <= acc <= 0,
            read_down(s@, 0, min as int) == read_down(s@.skip(at), acc as int, min as int),
        decreases s@.len() - at,
    {
        match chars.next() {
            None => {
                return Ok(acc);
            },
            Some(c) => {
                proof {
                    assert(c == s@.skip(at)[0]);
                    assert(s@.skip(at).drop_first() =~= s@.skip(at + 1));
                    at = at + 1;
                }
                if !('0' <= c && c <= '9') {
                    return Err(IntErrorKind::InvalidDigit);
                }
                let digit: i128 = (c as u8 - 48) as i128;
                let next = match acc.checked_mul(10) {
                    None => {
                        return Err(IntErrorKind::NegOverflow);
                    },
                    Some(tens) => match tens.checked_sub(digit) {
                        None => {
                            return Err(IntErrorKind::NegOverflow);
                        },
                        Some(next) => next,
                    },
                };
                if next < min {
                    return Err(IntErrorKind::NegOverflow);
                }
                acc = next;
            },
        }
    }
}

/// Reads `s` as an integer between zero and `max`.
pub fn parse_unsigned(s: &str, max: u128) -> (r: Result<u128, IntErrorKind>)
    ensures
        r matches Ok(v) ==> parse_int(s@, 0, max as int) == Ok::<int, IntErrorKind>(v as int),
        r matches Err(kind) ==> parse_int(s@, 0, max as int) == Err::<int, IntErrorKind>(kind),
{
    let len = s.unicode_len();
    if len == 0 {
        return Err(IntErrorKind::Empty);
    }
    let first = s.get_char(0);
    if len == 1 && (first == '+' || first == '-') {
        return Err(IntErrorKind::InvalidDigit);
    }
    if first == '+' {
        let digits = s.substring_char(1, len);
        assert(digits@ =~= s@.drop_first());
        read_digits_up(digits, max)
    } else {
        read_digits_up(s, max)
    }
}

/// Reads `s` as an integer between `min` and `max`.
pub fn parse_signed(s: &str, min: i128, max: i128) -> (r: Result<i128, IntErrorKind>)
    requires
        min < 0 <= max,
    ensures
        r matches Ok(v) ==> parse_int(s@, min as int, max as int) == Ok::<int, IntErrorKind>(
            v as int,
        ),
        r matches Err(kind) ==> parse_int(s@, min as int, max as int) == Err::<int, IntErrorKind>(
            kind,
        ),
{
    let len = s.unicode_len();
    if len == 0 {
        return Err(IntErrorKind::Empty);
    }
    let first = s.get_char(0);
    if len == 1 && (first == '+' || first == '-') {
        return Err(IntErrorKind::InvalidDigit);
    }
    if first == '-' {
        let digits = s.substring_char(1, len);
        assert(digits@ =~= s@.drop_first());
        read_digits_down(digits, min)
    } else {
        let up = if first == '+' {
            let digits = s.substring_char(1, len);
            assert(digits@ =~= s@.drop_first());
            read_digits_up(digits, max as u128)
        } else {
            read_digits_up(s, max as u128)
        };
        match up {
            Ok(v) => Ok(v as i128),
            Err(kind) => Err(kind),
        }
    }
}

} // verus!
