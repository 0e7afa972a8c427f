//! Decimal integers on the wire: rendering and strict parsing.

use vstd::prelude::*;
use vstd::string::*;

use crate::text;

verus! {

/// Why a text is not an integer of the wanted type.
#[derive(Clone, Copy, Debug, PartialEq, Eq, Structural)]
pub enum IntError {
    /// Nothing to parse.
    Empty,
    /// A character that is no digit (or a lone sign).
    InvalidDigit,
    /// Above the type's maximum.
    PosOverflow,
    /// Below the type's minimum.
    NegOverflow,
}

impl IntError {
    /// What the error says to a reader.
    pub open spec fn text_spec(self) -> Seq<char> {
        match self {
            IntError::Empty => "cannot parse integer from empty string"@,
            IntError::InvalidDigit => "invalid digit found in string"@,
            IntError::PosOverflow => "number too large to fit in target type"@,
            IntError::NegOverflow => "number too small to fit in target type"@,
        }
    }

    /// What the error says to a reader.
    pub fn text(self) -> (r: &'static str)
        ensures
            r@ == self.text_spec(),
    {
        match self {
            IntError::Empty => "cannot parse integer from empty string",
            IntError::InvalidDigit => "invalid digit found in string",
            IntError::PosOverflow => "number too large to fit in target type",
            IntError::NegOverflow => "number too small to fit in target type",
        }
    }
}

// ── Rendering ──

/// The character of one decimal digit.
pub open spec fn digit_char(d: nat) -> char {
    (('0' as nat) + d) as char
}

/// Decimal digits of a natural number, most significant first, no padding.
pub open spec fn decimal_nat(n: nat) -> Seq<char>
    decreases n,
{
    if n < 10 {
        seq![digit_char(n)]
    } else {
        decimal_nat(n / 10).push(digit_char(n % 10))
    }
}

/// Decimal rendering of an integer, with a minus sign when negative.
pub open spec fn decimal(i: int) -> Seq<char> {
    if i < 0 {
        seq!['-'] + decimal_nat((-i) as nat)
    } else {
        decimal_nat(i as nat)
    }
}

fn digit_of(d: u64) -> (r: char)
    requires
        d < 10,
    ensures
        r == digit_char(d as nat),
{
    (48u8 + d as u8) as char
}

/// Decimal rendering of an unsigned integer.
pub fn u64_text(n: u64) -> (r: String)
    ensures
        r@ == decimal(n as int),
    decreases n,
{
    let mut out = if n < 10 {
        String::new()
    } else {
        u64_text(n / 10)
    };
    out.push(digit_of(n % 10));
    assert(out@ =~= decimal_nat(n as nat));
    out
}

/// Decimal rendering of a signed integer.
pub fn i64_text(n: i64) -> (r: String)
    ensures
        r@ == decimal(n as int),
{
    if n >= 0 {
        u64_text(n as u64)
    } else {
        let mut out = String::new();
        out.push('-');
        let magnitude: u64 = if n == i64::MIN {
            9_223_372_036_854_775_808u64
        } else {
            (-n) as u64
        };
        let digits = u64_text(magnitude);
        out.append(digits.as_str());
        assert(out@ =~= decimal(n as int));
        out
    }
}

// ── Parsing ──

/// Whether a character is an ASCII decimal digit.
pub open spec fn is_digit(c: char) -> bool {
    '0' <= c && c <= '9'
}

/// The value of a digit.
pub open spec fn digit_value(c: char) -> nat {
    (c as nat - '0' as nat) as nat
}

/// Read digits left to right onto `acc`. The first character that is no digit,
/// or the first digit that carries the value above `max`, decides the failure;
/// `over` is the failure reported for the latter.
pub open spec fn read_digits(s: Seq<char>, acc: nat, max: nat, over: IntError) -> Result<nat, IntError>
    decreases s.len(),
{
    if s.len() == 0 {
        Ok(acc)
    } else if !is_digit(s[0]) {
        Err(IntError::InvalidDigit)
    } else if acc * 10 + digit_value(s[0]) > max {
        Err(over)
    } else {
        read_digits(s.skip(1), acc * 10 + digit_value(s[0]), max, over)
    }
}

/// A non-negative integer of at most `max`: one optional `+`, at least one digit.
pub open spec fn parse_nat(s: Seq<char>, max: nat) -> Result<nat, IntError> {
    if s.len() == 0 {
        Err(IntError::Empty)
    } else if s[0] == '+' {
        if s.len() == 1 {
            Err(IntError::InvalidDigit)
        } else {
            read_digits(s.skip(1), 0, max, IntError::PosOverflow)
        }
    } else {
        read_digits(s, 0, max, IntError::PosOverflow)
    }
}

/// An integer between `-max - 1` and `max`: one optional sign, at least one digit.
pub open spec fn parse_int(s: Seq<char>, max: nat) -> Result<int, IntError> {
    if s.len() == 0 {
        Err(IntError::Empty)
    } else if s[0] == '-' {
        if s.len() == 1 {
            Err(IntError::InvalidDigit)
        } else {
            match read_digits(s.skip(1), 0, max + 1, IntError::NegOverflow) {
                Ok(n) => Ok(-(n as int)),
                Err(e) => Err(e),
            }
        }
    } else {
        match parse_nat(s, max) {
            Ok(n) => Ok(n as int),
            Err(e) => Err(e),
        }
    }
}

/// A `u64` from text.
pub open spec fn parse_u64_spec(s: Seq<char>) -> Result<u64, IntError> {
    match parse_nat(s, u64::MAX as nat) {
        Ok(n) => Ok(n as u64),
        Err(e) => Err(e),
    }
}

/// A `u32` from text.
pub open spec fn parse_u32_spec(s: Seq<char>) -> Result<u32, IntError> {
    match parse_nat(s, u32::MAX as nat) {
        Ok(n) => Ok(n as u32),
        Err(e) => Err(e),
    }
}

/// A `u16` from text.
pub open spec fn parse_u16_spec(s: Seq<char>) -> Result<u16, IntError> {
    match parse_nat(s, u16::MAX as nat) {
        Ok(n) => Ok(n as u16),
        Err(e) => Err(e),
    }
}

/// A `usize` from text.
pub open spec fn parse_usize_spec(s: Seq<char>) -> Result<usize, IntError> {
    match parse_nat(s, usize::MAX as nat) {
        Ok(n) => Ok(n as usize),
        Err(e) => Err(e),
    }
}

/// An `i64` from text.
pub open spec fn parse_i64_spec(s: Seq<char>) -> Result<i64, IntError> {
    match parse_int(s, i64::MAX as nat) {
        Ok(n) => Ok(n as i64),
        Err(e) => Err(e),
    }
}

/// Read digits from position `start` on.
fn read_digits_from(x: &Vec<char>, start: usize, max: u64, over: IntError) -> (r: Result<u64, IntError>)
    requires
        start <= x@.len(),
    ensures
        match read_digits(x@.skip(start as int), 0, max as nat, over) {
            Ok(n) => n <= max && r == Ok::<u64, IntError>(n as u64),
            Err(e) => r == Err::<u64, IntError>(e),
        },
{
    let n: usize = x.len();
    let mut acc: u64 = 0;
    let mut i: usize = start;
    while i < n
        invariant
            n == x@.len(),
            start <= i <= n,
            acc <= max,
            read_digits(x@.skip(start as int), 0, max as nat, over) == read_digits(
                x@.skip(i as int),
                acc as nat,
                max as nat,
                over,
            ),
        decreases n - i,
    {
        let c = x[i];
        assert(x@.skip(i as int)[0] == c);
        assert(x@.skip(i as int).skip(1) =~= x@.skip(i as int + 1));
        if !('0' <= c && c <= '9') {
            return Err(IntError::InvalidDigit);
        }
        let d: u64 = (c as u8 - 48u8) as u64;
        assert(d == digit_value(c));
        if acc > max / 10 {
            assert(acc * 10 > max) by (nonlinear_arith)
                requires
                    acc > max / 10,
            ;
            return Err(over);
        }
        assert(acc * 10 <= max) by (nonlinear_arith)
            requires
                acc <= max / 10,
        ;
        let tens: u64 = acc * 10;
        if d > max - tens {
            return Err(over);
        }
        acc = tens + d;
        i = i + 1;
    }
    assert(x@.skip(n as int).len() == 0);
    Ok(acc)
}

fn parse_bounded(s: &str, max: u64) -> (r: Result<u64, IntError>)
    ensures
        match parse_nat(s@, max as nat) {
            Ok(n) => n <= max && r == Ok::<u64, IntError>(n as u64),
            Err(e) => r == Err::<u64, IntError>(e),
        },
{
    let x = text::chars_of(s);
    if x.len() == 0 {
        return Err(IntError::Empty);
    }
    if x[0] == '+' {
        if x.len() == 1 {
            return Err(IntError::InvalidDigit);
        }
        return read_digits_from(&x, 1, max, IntError::PosOverflow);
    }
    assert(x@.skip(0) =~= x@);
    read_digits_from(&x, 0, max, IntError::PosOverflow)
}

/// Parse a `u64`.
pub fn parse_u64(s: &str) -> (r: Result<u64, IntError>)
    ensures
        r == parse_u64_spec(s@),
{
    parse_bounded(s, u64::MAX)
}

/// Parse a `u32`.
pub fn parse_u32(s: &str) -> (r: Result<u32, IntError>)
    ensures
        r == parse_u32_spec(s@),
{
    match parse_bounded(s, u32::MAX as u64) {
        Ok(n) => Ok(n as u32),
        Err(e) => Err(e),
    }
}

/// Parse a `u16`.
pub fn parse_u16(s: &str) -> (r: Result<u16, IntError>)
    ensures
        r == parse_u16_spec(s@),
{
    match parse_bounded(s, u16::MAX as u64) {
        Ok(n) => Ok(n as u16),
        Err(e) => Err(e),
    }
}

/// Parse a `usize`.
pub fn parse_usize(s: &str) -> (r: Result<usize, IntError>)
    ensures
        r == parse_usize_spec(s@),
{
    match parse_bounded(s, usize::MAX as u64) {
        Ok(n) => Ok(n as usize),
        Err(e) => Err(e),
    }
}

/// Parse an `i64`.
pub fn parse_i64(s: &str) -> (r: Result<i64, IntError>)
    ensures
        r == parse_i64_spec(s@),
{
    let x = text::chars_of(s);
    if x.len() > 0 && x[0] == '-' {
        if x.len() == 1 {
            return Err(IntError::InvalidDigit);
        }
        match read_digits_from(&x, 1, 9_223_372_036_854_775_808u64, IntError::NegOverflow) {
            Ok(n) => {
                if n == 9_223_372_036_854_775_808u64 {
                    Ok(i64::MIN)
                } else {
                    Ok(-(n as i64))
                }
            },
            Err(e) => Err(e),
        }
    } else {
        match parse_bounded(s, i64::MAX as u64) {
            Ok(n) => Ok(n as i64),
            Err(e) => Err(e),
        }
    }
}

// ── Round trip ──

/// Reading the digits of `n` on top of nothing gives `n` back.
proof fn lemma_read_decimal(n: nat, tail: Seq<char>, max: nat, over: IntError)
    requires
        n <= max,
    ensures
        read_digits(decimal_nat(n) + tail, 0, max, over) == read_digits(tail, n, max, over),
    decreases n,
{
    let d = digit_char(n % 10);
    assert(is_digit(d) && digit_value(d) == n % 10);
    if n < 10 {
        assert(decimal_nat(n) + tail =~= seq![d] + tail);
        assert((seq![d] + tail).skip(1) =~= tail);
    } else {
        let rest = seq![d] + tail;
        assert(decimal_nat(n) + tail =~= decimal_nat(n / 10) + rest);
        lemma_read_decimal(n / 10, rest, max, over);
        assert(rest.skip(1) =~= tail);
        assert((n / 10) * 10 + n % 10 == n);
    }
}

/// Rendering starts with a digit.
proof fn lemma_decimal_head(n: nat)
    ensures
        decimal_nat(n).len() > 0,
        is_digit(decimal_nat(n)[0]),
    decreases n,
{
    if n >= 10 {
        lemma_decimal_head(n / 10);
    }
}

/// A `u64` survives rendering and parsing.
pub proof fn law_u64_round_trip(n: u64)
    ensures
        parse_u64_spec(decimal(n as int)) == Ok::<u64, IntError>(n),
{
    lemma_decimal_head(n as nat);
    lemma_read_decimal(n as nat, Seq::empty(), u64::MAX as nat, IntError::PosOverflow);
    assert(decimal_nat(n as nat) + Seq::<char>::empty() =~= decimal_nat(n as nat));
}

/// A `u32` is read back from its decimal text.
pub proof fn law_u32_round_trip(n: u32)
    ensures
        parse_u32_spec(decimal(n as int)) == Ok::<u32, IntError>(n),
{
    lemma_decimal_head(n as nat);
    lemma_read_decimal(n as nat, Seq::empty(), u32::MAX as nat, IntError::PosOverflow);
    assert(decimal_nat(n as nat) + Seq::<char>::empty() =~= decimal_nat(n as nat));
}

/// A `usize` is read back from its decimal text.
pub proof fn law_usize_round_trip(n: usize)
    ensures
        parse_usize_spec(decimal(n as int)) == Ok::<usize, IntError>(n),
{
    lemma_decimal_head(n as nat);
    lemma_read_decimal(n as nat, Seq::empty(), usize::MAX as nat, IntError::PosOverflow);
    assert(decimal_nat(n as nat) + Seq::<char>::empty() =~= decimal_nat(n as nat));
}

/// An `i64` survives rendering and parsing.
pub proof fn law_i64_round_trip(n: i64)
    ensures
        parse_i64_spec(decimal(n as int)) == Ok::<i64, IntError>(n),
{
    let m: nat = if n < 0 {
        (-(n as int)) as nat
    } else {
        n as nat
    };
    lemma_decimal_head(m);
    assert(decimal_nat(m) + Seq::<char>::empty() =~= decimal_nat(m));
    if n < 0 {
        lemma_read_decimal(m, Seq::empty(), (i64::MAX as nat) + 1, IntError::NegOverflow);
        assert(decimal(n as int).skip(1) =~= decimal_nat(m));
    } else {
        lemma_read_decimal(m, Seq::empty(), i64::MAX as nat, IntError::PosOverflow);
    }
}

/// A number as a signed one: above the signed range, the negative number with the
/// same bits.
pub open spec fn signed(n: u64) -> int {
    if n <= i64::MAX {
        n as int
    } else {
        n - 0x1_0000_0000_0000_0000
    }
}

/// A number as a signed one.
pub fn as_signed(n: u64) -> (r: i128)
    ensures
        r == signed(n),
{
    if n <= 0x7fff_ffff_ffff_ffff {
        n as i128
    } else {
        n as i128 - 0x1_0000_0000_0000_0000
    }
}

} // verus!
