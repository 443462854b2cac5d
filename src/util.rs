//! Timestamps and fractional digit counting.

use crate::decimal::{frac_digits, lemma_frac_digits_of_zero, Decimal};
use chrono::NaiveDateTime;
use vstd::prelude::*;

verus! {

/// Seconds since the Unix epoch that chrono reads from `s` in the format
/// `%Y-%m-%d %H:%M:%S %Z`, or `None` where it reads none.
pub uninterp spec fn timestamp_of(s: Seq<char>) -> Option<i64>;

/// Relies on chrono's `NaiveDateTime::parse_from_str` with the format
/// `%Y-%m-%d %H:%M:%S %Z` (the zone name is read and ignored) and on
/// `and_utc().timestamp()`: the result depends on the text alone.
#[verifier::external_body]
pub fn string_to_timestamp(timestamp_str: &str) -> (r: Option<i64>)
    ensures
        r == timestamp_of(timestamp_str@),
{
    match NaiveDateTime::parse_from_str(timestamp_str, "%Y-%m-%d %H:%M:%S %Z") {
        Ok(parsed_time) => Some(parsed_time.and_utc().timestamp()),
        Err(_) => None,
    }
}

/// Number of significant digits after the decimal point once trailing zeros
/// are stripped; zero for a scale that is not positive.
pub fn bigdecimal_fractional_count(big_decimal: Decimal) -> (r: u64)
    ensures
        r == big_decimal.fraction_digits(),
{
    if big_decimal.scale <= 0 || big_decimal.digits == 0 {
        proof {
            lemma_frac_digits_of_zero(big_decimal.scale as int);
        }
        return 0;
    }
    let mut d: u128 = big_decimal.digits;
    let mut s: i64 = big_decimal.scale;
    while s > 0 && d % 10 == 0
        invariant
            d > 0,
            0 <= s <= big_decimal.scale,
            frac_digits(d as nat, s as int) == big_decimal.fraction_digits(),
        decreases s,
    {
        d = d / 10;
        s = s - 1;
    }
    s as u64
}

} // verus!
