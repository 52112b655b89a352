//! Decimal text for unsigned integers: the parser that turns configuration
//! text into numbers, and the renderer used in file names and messages.

use vstd::prelude::*;
use vstd::string::StringSliceAdditionalSpecFns;
use vstd::string::StringExecFns;
use vstd::utf8::{encode_utf8, is_ascii_chars, is_ascii_chars_encode_utf8};

verus! {

/// Why a text is not an unsigned decimal number of the wanted width.
#[derive(Debug, Clone, Copy, PartialEq, Eq, Structural)]
pub enum IntErrorKind {
    /// The text is empty.
    Empty,
    /// A byte that is not an ASCII digit (a lone or misplaced sign counts).
    InvalidDigit,
    /// The value is larger than the target type holds.
    PosOverflow,
}

/// An ASCII digit byte.
pub open spec fn is_digit(b: u8) -> bool {
    48 <= b && b <= 57
}

/// The value of an ASCII digit byte.
pub open spec fn digit_value(b: u8) -> int {
    b - 48
}

/// Reads the digits `d` left to right, on top of the value `acc` read so far;
/// the first byte that is no digit, or the first digit that takes the value
/// past `max`, decides the error.
pub open spec fn scan_digits(d: Seq<u8>, max: int, acc: int) -> Result<int, IntErrorKind>
    decreases d.len(),
{
    if d.len() == 0 {
        Ok(acc)
    } else if !is_digit(d[0]) {
        Err(IntErrorKind::InvalidDigit)
    } else if acc * 10 + digit_value(d[0]) > max {
        Err(IntErrorKind::PosOverflow)
    } else {
        scan_digits(d.drop_first(), max, acc * 10 + digit_value(d[0]))
    }
}

/// An unsigned decimal number as the bytes `s` spell it: an optional `+`,
/// then one or more ASCII digits, with a value of at most `max`. Nothing
/// else is accepted, whitespace included.
pub open spec fn parse_unsigned(s: Seq<u8>, max: int) -> Result<int, IntErrorKind> {
    if s.len() == 0 {
        Err(IntErrorKind::Empty)
    } else if s[0] == 43u8 {
        if s.len() == 1 {
            Err(IntErrorKind::InvalidDigit)
        } else {
            scan_digits(s.drop_first(), max, 0)
        }
    } else {
        scan_digits(s, max, 0)
    }
}

proof fn lemma_scan_bounded(d: Seq<u8>, max: int, acc: int)
    requires
        0 <= acc <= max,
    ensures
        scan_digits(d, max, acc) matches Ok(v) ==> 0 <= v <= max,
    decreases d.len(),
{
    if d.len() > 0 && is_digit(d[0]) && acc * 10 + digit_value(d[0]) <= max {
        lemma_scan_bounded(d.drop_first(), max, acc * 10 + digit_value(d[0]));
    }
}

/// Reads `s[start..]` as digits, the first step of `parse_unsigned` done.
fn scan_digits_exec(s: &[u8], start: usize, max: u64) -> (res: Result<u64, IntErrorKind>)
    requires
        start <= s@.len(),
    ensures
        match res {
            Ok(v) => scan_digits(s@.subrange(start as int, s@.len() as int), max as int, 0) == Ok::<int, IntErrorKind>(
                v as int,
            ),
            Err(e) => scan_digits(s@.subrange(start as int, s@.len() as int), max as int, 0)
                == Err::<int, IntErrorKind>(e),
        },
{
    let ghost target = scan_digits(s@.subrange(start as int, s@.len() as int), max as int, 0);
    let mut acc: u64 = 0;
    let mut i: usize = start;
    while i < s.len()
        invariant
            start <= i <= s@.len(),
            acc <= max,
            target == scan_digits(s@.subrange(start as int, s@.len() as int), max as int, 0),
            target == scan_digits(s@.subrange(i as int, s@.len() as int), max as int, acc as int),
        decreases s@.len() - i,
    {
        let b = s[i];
        let ghost rest = s@.subrange(i as int, s@.len() as int);
        assert(rest.len() > 0 && rest[0] == b);
        if b < 48 || b > 57 {
            assert(!is_digit(rest[0]));
            return Err(IntErrorKind::InvalidDigit);
        }
        let next: u128 = (acc as u128) * 10 + ((b - 48) as u128);
        if next > max as u128 {
            assert(acc * 10 + digit_value(rest[0]) > max);
            return Err(IntErrorKind::PosOverflow);
        }
        assert(s@.subrange(i as int, s@.len() as int).drop_first() =~= s@.subrange(
            i + 1,
            s@.len() as int,
        ));
        acc = next as u64;
        i = i + 1;
    }
    assert(s@.subrange(i as int, s@.len() as int).len() == 0);
    Ok(acc)
}

/// Parses `s` as `parse_unsigned` says, with values up to `max`.
fn parse_unsigned_exec(s: &[u8], max: u64) -> (res: Result<u64, IntErrorKind>)
    ensures
        match res {
            Ok(v) => parse_unsigned(s@, max as int) == Ok::<int, IntErrorKind>(v as int),
            Err(e) => parse_unsigned(s@, max as int) == Err::<int, IntErrorKind>(e),
        },
{
    if s.len() == 0 {
        return Err(IntErrorKind::Empty);
    }
    if s[0] == 43u8 {
        if s.len() == 1 {
            return Err(IntErrorKind::InvalidDigit);
        }
        assert(s@.drop_first() =~= s@.subrange(1, s@.len() as int));
        scan_digits_exec(s, 1, max)
    } else {
        assert(s@ =~= s@.subrange(0, s@.len() as int));
        scan_digits_exec(s, 0, max)
    }
}

/// Parses `s` as a `u32`: an optional `+`, then decimal digits.
pub fn parse_u32(s: &str) -> (res: Result<u32, IntErrorKind>)
    ensures
        match res {
            Ok(v) => parse_unsigned(s.spec_bytes(), u32::MAX as int) == Ok::<int, IntErrorKind>(v as int),
            Err(e) => parse_unsigned(s.spec_bytes(), u32::MAX as int) == Err::<int, IntErrorKind>(
                e,
            ),
        },
{
    let bytes = s.as_bytes();
    match parse_unsigned_exec(bytes, u32::MAX as u64) {
        Ok(v) => {
            proof {
                lemma_parse_bounded(bytes@, u32::MAX as int);
            }
            Ok(v as u32)
        },
        Err(e) => Err(e),
    }
}

/// Parses `s` as a `u64`: an optional `+`, then decimal digits.
pub fn parse_u64(s: &str) -> (res: Result<u64, IntErrorKind>)
    ensures
        match res {
            Ok(v) => parse_unsigned(s.spec_bytes(), u64::MAX as int) == Ok::<int, IntErrorKind>(v as int),
            Err(e) => parse_unsigned(s.spec_bytes(), u64::MAX as int) == Err::<int, IntErrorKind>(
                e,
            ),
        },
{
    parse_unsigned_exec(s.as_bytes(), u64::MAX)
}

/// Parses `s` as a `usize`: an optional `+`, then decimal digits.
pub fn parse_usize(s: &str) -> (res: Result<usize, IntErrorKind>)
    ensures
        match res {
            Ok(v) => parse_unsigned(s.spec_bytes(), usize::MAX as int) == Ok::<int, IntErrorKind>(v as int),
            Err(e) => parse_unsigned(s.spec_bytes(), usize::MAX as int) == Err::<int, IntErrorKind>(
                e,
            ),
        },
{
    let bytes = s.as_bytes();
    match parse_unsigned_exec(bytes, usize::MAX as u64) {
        Ok(v) => {
            proof {
                lemma_parse_bounded(bytes@, usize::MAX as int);
            }
            Ok(v as usize)
        },
        Err(e) => Err(e),
    }
}

proof fn lemma_parse_bounded(s: Seq<u8>, max: int)
    requires
        0 <= max,
    ensures
        parse_unsigned(s, max) matches Ok(v) ==> 0 <= v <= max,
{
    if s.len() > 0 {
        if s[0] == 43u8 {
            lemma_scan_bounded(s.drop_first(), max, 0);
        } else {
            lemma_scan_bounded(s, max, 0);
        }
    }
}

/// The character of a decimal digit value `d` (0 to 9).
pub open spec fn digit_char(d: int) -> char {
    if d == 0 {
        '0'
    } else if d == 1 {
        '1'
    } else if d == 2 {
        '2'
    } else if d == 3 {
        '3'
    } else if d == 4 {
        '4'
    } else if d == 5 {
        '5'
    } else if d == 6 {
        '6'
    } else if d == 7 {
        '7'
    } else if d == 8 {
        '8'
    } else {
        '9'
    }
}

/// The decimal digits of `n`, most significant first, without leading zeros.
pub open spec fn decimal(n: nat) -> Seq<char>
    decreases n,
{
    if n < 10 {
        seq![digit_char(n as int)]
    } else {
        decimal(n / 10).push(digit_char((n % 10) as int))
    }
}

fn digit_text(d: u128) -> (s: &'static str)
    requires
        d < 10,
    ensures
        s@ == seq![digit_char(d as int)],
{
    proof {
        reveal_strlit("0");
        reveal_strlit("1");
        reveal_strlit("2");
        reveal_strlit("3");
        reveal_strlit("4");
        reveal_strlit("5");
        reveal_strlit("6");
        reveal_strlit("7");
        reveal_strlit("8");
        reveal_strlit("9");
    }
    if d == 0 {
        "0"
    } else if d == 1 {
        "1"
    } else if d == 2 {
        "2"
    } else if d == 3 {
        "3"
    } else if d == 4 {
        "4"
    } else if d == 5 {
        "5"
    } else if d == 6 {
        "6"
    } else if d == 7 {
        "7"
    } else if d == 8 {
        "8"
    } else {
        "9"
    }
}

/// Appends the decimal digits of `n` to `out`.
pub fn push_decimal(out: &mut String, n: u128)
    ensures
        final(out)@ == old(out)@ + decimal(n as nat),
    decreases n,
{
    if n >= 10 {
        push_decimal(out, n / 10);
    }
    out.append(digit_text(n % 10));
    assert(final(out)@ =~= old(out)@ + decimal(n as nat));
}

} // verus!

verus! {

/// The ASCII bytes of `decimal(n)`.
pub open spec fn decimal_bytes(n: nat) -> Seq<u8>
    decreases n,
{
    if n < 10 {
        seq![(48 + n) as u8]
    } else {
        decimal_bytes(n / 10).push((48 + n % 10) as u8)
    }
}

proof fn lemma_digit_char(d: int)
    requires
        0 <= d < 10,
    ensures
        digit_char(d) as u8 == (48 + d) as u8,
        '\0' <= digit_char(d) <= '\u{7f}',
{
}

proof fn lemma_decimal_bytes(n: nat)
    ensures
        decimal(n).len() == decimal_bytes(n).len(),
        decimal(n).len() >= 1,
        forall|i: int| 0 <= i < decimal(n).len() ==> {
            &&& #[trigger] decimal(n)[i] as u8 == decimal_bytes(n)[i]
            &&& '\0' <= decimal(n)[i] <= '\u{7f}'
            &&& is_digit(decimal_bytes(n)[i])
        },
    decreases n,
{
    if n < 10 {
        lemma_digit_char(n as int);
    } else {
        lemma_decimal_bytes(n / 10);
        lemma_digit_char((n % 10) as int);
        assert forall|i: int| 0 <= i < decimal(n).len() implies {
            &&& #[trigger] decimal(n)[i] as u8 == decimal_bytes(n)[i]
            &&& '\0' <= decimal(n)[i] <= '\u{7f}'
            &&& is_digit(decimal_bytes(n)[i])
        } by {
            if i < decimal(n / 10).len() {
                assert(decimal(n)[i] == decimal(n / 10)[i]);
                assert(decimal_bytes(n)[i] == decimal_bytes(n / 10)[i]);
            }
        }
    }
}

/// The UTF-8 bytes of `decimal(n)` are its ASCII digit bytes.
proof fn lemma_encode_decimal(n: nat)
    ensures
        encode_utf8(decimal(n)) == decimal_bytes(n),
{
    lemma_decimal_bytes(n);
    assert(is_ascii_chars(decimal(n)));
    is_ascii_chars_encode_utf8(decimal(n));
    assert(encode_utf8(decimal(n)) =~= decimal_bytes(n));
}

proof fn lemma_scan_push(d: Seq<u8>, b: u8, max: int, acc: int, v: int)
    requires
        scan_digits(d, max, acc) == Ok::<int, IntErrorKind>(v),
        is_digit(b),
        v * 10 + digit_value(b) <= max,
    ensures
        scan_digits(d.push(b), max, acc) == Ok::<int, IntErrorKind>(v * 10 + digit_value(b)),
    decreases d.len(),
{
    if d.len() == 0 {
        assert(d.push(b).drop_first() =~= Seq::<u8>::empty());
        assert(scan_digits(Seq::<u8>::empty(), max, v * 10 + digit_value(b)) == Ok::<
            int,
            IntErrorKind,
        >(v * 10 + digit_value(b)));
    } else {
        assert(d.push(b)[0] == d[0]);
        assert(d.push(b).drop_first() =~= d.drop_first().push(b));
        lemma_scan_push(d.drop_first(), b, max, acc * 10 + digit_value(d[0]), v);
    }
}

proof fn lemma_scan_decimal(n: nat, max: int)
    requires
        n <= max,
    ensures
        scan_digits(decimal_bytes(n), max, 0) == Ok::<int, IntErrorKind>(n as int),
    decreases n,
{
    if n < 10 {
        let s = decimal_bytes(n);
        assert(s[0] == (48 + n) as u8);
        assert(digit_value(s[0]) == n);
        assert(s.drop_first() =~= Seq::<u8>::empty());
        assert(scan_digits(s.drop_first(), max, n as int) == Ok::<int, IntErrorKind>(n as int));
    } else {
        assert((n / 10) * 10 + n % 10 == n) by (nonlinear_arith);
        assert(n / 10 <= n) by (nonlinear_arith);
        assert(digit_value((48 + n % 10) as u8) == n % 10);
        lemma_scan_decimal(n / 10, max);
        lemma_scan_push(decimal_bytes(n / 10), (48 + n % 10) as u8, max, 0, (n / 10) as int);
    }
}

/// Parsing the decimal text of a number gives that number back, whenever it
/// fits the bound `max`.
pub proof fn parse_reads_back_decimal(n: nat, max: int)
    requires
        n <= max,
    ensures
        parse_unsigned(encode_utf8(decimal(n)), max) == Ok::<int, IntErrorKind>(n as int),
{
    lemma_encode_decimal(n);
    lemma_decimal_bytes(n);
    lemma_scan_decimal(n, max);
    assert(decimal(n)[0] as u8 == decimal_bytes(n)[0]);
    assert(is_digit(decimal_bytes(n)[0]));
}

} // verus!
