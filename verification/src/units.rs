//! Byte quantities, read and written by the `byte-unit` crate.
use vstd::prelude::*;

use crate::text::{decimal, is_digit, trim};

verus! {

/// The number of bytes that `byte_unit::Byte::from_str` reads from `s`, or
/// `None` where it rejects `s`.
pub uninterp spec fn byte_unit_parse(s: Seq<char>) -> Option<u64>;

/// The value and unit, written together, that `byte_unit` picks for `bytes`
/// among the decimal units.
pub uninterp spec fn byte_unit_compact(bytes: u64) -> Seq<char>;

/// `bytes` as a whole number of units of `unit` bytes, where it is one and
/// falls in the range in which `byte_unit` picks that unit: above `unit`
/// and up to a thousand of them.
pub open spec fn whole_units(bytes: u64, unit: nat) -> Option<nat> {
    let b = bytes as nat;
    if unit > 0 && b % unit == 0 && unit < b <= 1000 * unit {
        Some(b / unit)
    } else {
        None
    }
}

/// How a limit of `bytes` is written in a narrative: the count and unit run
/// together, as `64MB`. Whole numbers of bytes, kilobytes, megabytes and
/// gigabytes are stated here; any other amount is as `byte_unit` writes it.
pub open spec fn compact_bytes(bytes: u64) -> Seq<char> {
    if bytes <= 1000 {
        decimal(bytes as nat) + "B"@
    } else if let Some(k) = whole_units(bytes, 1000) {
        decimal(k) + "KB"@
    } else if let Some(k) = whole_units(bytes, 1_000_000) {
        decimal(k) + "MB"@
    } else if let Some(k) = whole_units(bytes, 1_000_000_000) {
        decimal(k) + "GB"@
    } else {
        byte_unit_compact(bytes)
    }
}

/// Calls `byte_unit::Byte::from_str` and, on success, `Byte::get_bytes`.
/// The crate reads a decimal number (possibly with a fraction) and an
/// optional unit through floating point; the result is named, as a function
/// of `s` alone. Its source shows one plain fact, stated here: after trimming
/// white space, a text that is empty or does not start with an ASCII digit
/// is rejected.
#[verifier::external_body]
pub(crate) fn parse_byte_quantity(s: &str) -> (r: Option<u64>)
    ensures
        r == byte_unit_parse(s@),
        trim(s@).len() == 0 || !is_digit(trim(s@)[0]) ==> r is None,
{
    match byte_unit::Byte::from_str(s) {
        Ok(b) => Some(b.get_bytes()),
        Err(_) => None,
    }
}

/// Calls `byte_unit::Byte::from_bytes(bytes).get_appropriate_unit(false)`
/// and writes the value it gives (by `Display`) followed at once by
/// the unit's name. The result is named; the source shows these facts:
/// up to 1000 bytes the unit is `B`; above 1000 up to 10^6 it is `KB`, above
/// 10^6 up to 10^9 `MB`, above 10^9 up to 10^12 `GB`; the value is the byte
/// count divided by the unit, which for a whole number of units below 2^53 is
/// exact and is displayed without a fraction.
#[verifier::external_body]
pub(crate) fn compact_unit_text(bytes: u64) -> (r: String)
    ensures
        r@ == byte_unit_compact(bytes),
        bytes <= 1000 ==> r@ == decimal(bytes as nat) + "B"@,
        whole_units(bytes, 1000) matches Some(k) ==> r@ == decimal(k) + "KB"@,
        whole_units(bytes, 1_000_000) matches Some(k) ==> r@ == decimal(k) + "MB"@,
        whole_units(bytes, 1_000_000_000) matches Some(k) ==> r@ == decimal(k) + "GB"@,
{
    let a = byte_unit::Byte::from_bytes(bytes).get_appropriate_unit(false);
    format!("{}{}", a.get_value(), a.get_unit())
}

} // verus!
