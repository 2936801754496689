//! Decimal integers as text: an optional sign followed by ASCII digits.

use vstd::prelude::*;

verus! {

/// `c` is one of the ASCII digits `0` to `9`.
pub open spec fn eh_digito(c: char) -> bool {
    '0' <= c && c <= '9'
}

/// The number an ASCII digit stands for.
pub open spec fn valor_digito(c: char) -> int {
    c as int - '0' as int
}

/// Every character of `s` is an ASCII digit, and there is at least one.
pub open spec fn so_digitos(s: Seq<char>) -> bool {
    &&& s.len() > 0
    &&& forall|i: int| 0 <= i < s.len() ==> eh_digito(#[trigger] s[i])
}

/// The number that a run of digits denotes in base ten, most significant
/// digit first. Leading zeros do not change it.
pub open spec fn valor_digitos(s: Seq<char>) -> int
    decreases s.len(),
{
    if s.len() == 0 {
        0
    } else {
        10 * valor_digitos(s.drop_last()) + valor_digito(s.last())
    }
}

/// The integer that `s` denotes, if it is a decimal integer: one optional
/// `+` or `-`, then one or more ASCII digits and nothing else. There is no
/// bound on the magnitude here.
pub open spec fn inteiro_decimal(s: Seq<char>) -> Option<int> {
    if s.len() > 0 && s[0] == '-' {
        if so_digitos(s.skip(1)) {
            Some(-valor_digitos(s.skip(1)))
        } else {
            None
        }
    } else if s.len() > 0 && s[0] == '+' {
        if so_digitos(s.skip(1)) {
            Some(valor_digitos(s.skip(1)))
        } else {
            None
        }
    } else if so_digitos(s) {
        Some(valor_digitos(s))
    } else {
        None
    }
}

/// The decimal integer `s` denotes, if it fits in 32 bits, two's complement.
pub open spec fn i32_decimal(s: Seq<char>) -> Option<i32> {
    match inteiro_decimal(s) {
        Some(v) => if i32::MIN <= v <= i32::MAX {
            Some(v as i32)
        } else {
            None
        },
        None => None,
    }
}

/// The decimal integer `s` denotes, if it fits in 64 bits, two's complement.
pub open spec fn i64_decimal(s: Seq<char>) -> Option<i64> {
    match inteiro_decimal(s) {
        Some(v) => if i64::MIN <= v <= i64::MAX {
            Some(v as i64)
        } else {
            None
        },
        None => None,
    }
}

/// Reads a 32-bit integer with `str::parse::<i32>`.
///
/// Trusted: the standard library accepts exactly an optional `+` or `-`
/// followed by one or more ASCII digits, with no surrounding whitespace and
/// no underscores, and rejects a value outside the range of `i32`. The
/// contract says that, and that the value is the one the digits denote.
#[verifier::external_body]
pub(crate) fn analisar_i32(texto: &str) -> (r: Option<i32>)
    ensures
        r == i32_decimal(texto@),
{
    match texto.parse::<i32>() {
        Ok(v) => Some(v),
        Err(_) => None,
    }
}

/// Reads a 64-bit integer with `str::parse::<i64>`.
///
/// Trusted in the same way as [`analisar_i32`], with the range of `i64`.
#[verifier::external_body]
pub(crate) fn analisar_i64(texto: &str) -> (r: Option<i64>)
    ensures
        r == i64_decimal(texto@),
{
    match texto.parse::<i64>() {
        Ok(v) => Some(v),
        Err(_) => None,
    }
}

} // verus!
