use vstd::prelude::*;
use crate::text::{
    all_digits, char_vec, decimal_value, find_between, find_char, lemma_find_between, parse_decimal,
    u64_of,
};

verus! {

/// Why a quantity string was rejected.
#[derive(Debug, Clone, Copy, PartialEq, Eq, Structural)]
pub enum QuantityError {
    /// The string does not end in the scale marker that the quantity needs.
    MissingMarker,
    /// What stands before the marker is not a decimal number that fits in 64 bits.
    InvalidNumber,
}

/// A non-negative decimal number `whole.fraction`, where `fraction` is read
/// with `fraction_digits` digits: `1.05` is `{ whole: 1, fraction: 5, fraction_digits: 2 }`.
#[derive(Debug, Clone, Copy, PartialEq, Eq, Structural)]
pub struct Decimal {
    pub whole: u64,
    pub fraction: u64,
    pub fraction_digits: u64,
}

/// Meaning of a CPU usage string: decimal digits followed by the marker `n`
/// (nanocores); the result counts nanocores.
pub open spec fn cpu_usage_of(s: Seq<char>) -> Result<u64, QuantityError> {
    if s.len() == 0 || s.last() != 'n' {
        Err(QuantityError::MissingMarker)
    } else {
        match u64_of(s.drop_last()) {
            Some(v) => Ok(v),
            None => Err(QuantityError::InvalidNumber),
        }
    }
}

/// Meaning of a memory string: decimal digits followed by the marker `Ki`
/// (kibibytes); the result counts kibibytes.
pub open spec fn memory_ki_of(s: Seq<char>) -> Result<u64, QuantityError> {
    if s.len() < 2 || s[s.len() - 2] != 'K' || s[s.len() - 1] != 'i' {
        Err(QuantityError::MissingMarker)
    } else {
        match u64_of(s.subrange(0, s.len() - 2)) {
            Some(v) => Ok(v),
            None => Err(QuantityError::InvalidNumber),
        }
    }
}

/// Meaning of a CPU capacity string: a plain decimal core count, digits with
/// at most one `.` that has digits on both sides; no marker.
pub open spec fn cpu_capacity_of(s: Seq<char>) -> Result<Decimal, QuantityError> {
    let dot = find_between(s, '.', 0, s.len() as int);
    if dot == s.len() {
        match u64_of(s) {
            Some(w) => Ok(Decimal { whole: w, fraction: 0, fraction_digits: 0 }),
            None => Err(QuantityError::InvalidNumber),
        }
    } else {
        match (u64_of(s.subrange(0, dot)), u64_of(s.subrange(dot + 1, s.len() as int))) {
            (Some(w), Some(f)) => Ok(
                Decimal { whole: w, fraction: f, fraction_digits: (s.len() - dot - 1) as u64 },
            ),
            _ => Err(QuantityError::InvalidNumber),
        }
    }
}

/// Parses a CPU usage string such as `160635734n` into nanocores.
pub fn parse_cpu_nanocores(s: &str) -> (r: Result<u64, QuantityError>)
    ensures
        r == cpu_usage_of(s@),
{
    let v = char_vec(s);
    let n = v.len();
    if n == 0 || v[n - 1] != 'n' {
        return Err(QuantityError::MissingMarker);
    }
    assert(v@.subrange(0, n - 1) == v@.drop_last());
    match parse_decimal(&v, 0, n - 1) {
        Some(x) => Ok(x),
        None => Err(QuantityError::InvalidNumber),
    }
}

/// Parses a memory string such as `1879200Ki` into kibibytes.
pub fn parse_memory_ki(s: &str) -> (r: Result<u64, QuantityError>)
    ensures
        r == memory_ki_of(s@),
{
    let v = char_vec(s);
    let n = v.len();
    if n < 2 || v[n - 2] != 'K' || v[n - 1] != 'i' {
        return Err(QuantityError::MissingMarker);
    }
    match parse_decimal(&v, 0, n - 2) {
        Some(x) => Ok(x),
        None => Err(QuantityError::InvalidNumber),
    }
}

/// Parses a CPU capacity string such as `2` or `1.5` into a core count.
pub fn parse_cpu_capacity(s: &str) -> (r: Result<Decimal, QuantityError>)
    ensures
        r == cpu_capacity_of(s@),
{
    let v = char_vec(s);
    let n = v.len();
    let dot = find_char(&v, '.', 0, n);
    if dot == n {
        assert(v@.subrange(0, n as int) == v@);
        return match parse_decimal(&v, 0, n) {
            Some(w) => Ok(Decimal { whole: w, fraction: 0, fraction_digits: 0 }),
            None => Err(QuantityError::InvalidNumber),
        };
    }
    proof {
        lemma_find_between(v@, '.', 0, n as int);
    }
    let whole = parse_decimal(&v, 0, dot);
    let fraction = parse_decimal(&v, dot + 1, n);
    match (whole, fraction) {
        (Some(w), Some(f)) => Ok(
            Decimal { whole: w, fraction: f, fraction_digits: (n - dot - 1) as u64 },
        ),
        _ => Err(QuantityError::InvalidNumber),
    }
}

/// Every string of decimal digits followed by `n` parses to the number those
/// digits spell, counted in nanocores, whenever that number fits in 64 bits.
pub proof fn law_cpu_usage_digits(digits: Seq<char>)
    requires
        digits.len() > 0,
        all_digits(digits),
        decimal_value(digits) <= u64::MAX,
    ensures
        cpu_usage_of(digits.push('n')) == Ok::<u64, QuantityError>(decimal_value(digits) as u64),
{
    assert(digits.push('n').drop_last() == digits);
}

/// A string of decimal digits followed by `n` whose value does not fit in 64
/// bits is rejected as an invalid number, never read as a smaller count.
pub proof fn law_cpu_usage_too_large(digits: Seq<char>)
    requires
        all_digits(digits),
        decimal_value(digits) > u64::MAX,
    ensures
        cpu_usage_of(digits.push('n')) == Err::<u64, QuantityError>(QuantityError::InvalidNumber),
{
    assert(digits.push('n').drop_last() == digits);
}

/// Every string of decimal digits followed by `Ki` parses to the number those
/// digits spell, counted in kibibytes, whenever that number fits in 64 bits.
pub proof fn law_memory_digits(digits: Seq<char>)
    requires
        digits.len() > 0,
        all_digits(digits),
        decimal_value(digits) <= u64::MAX,
    ensures
        memory_ki_of(digits + seq!['K', 'i']) == Ok::<u64, QuantityError>(
            decimal_value(digits) as u64,
        ),
{
    let s = digits + seq!['K', 'i'];
    assert(s.subrange(0, s.len() - 2) == digits);
}

} // verus!
