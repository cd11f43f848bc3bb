//! The consultation pricing rule: a flat charge for the first hour and a
//! per-hour charge for each further whole hour beyond the first.

use vstd::prelude::*;
use vstd::arithmetic::div_mod::lemma_div_multiples_vanish_fancy;

verus! {

/// The fee, in currency units, for a consultation of `total_duration` minutes.
///
/// A consultation of zero minutes is free; one of up to an hour costs the
/// flat first-hour charge of 3500; beyond the first hour, each further
/// *whole* hour adds 1500, and a partial hour beyond the first adds nothing.
pub open spec fn consultation_fee(total_duration: int) -> int {
    if total_duration <= 0 {
        0
    } else if total_duration <= 60 {
        3500
    } else {
        3500 + ((total_duration - 60) / 60) * 1500
    }
}

/// Computes the consultation fee for a duration in minutes.
pub fn calculate_fee(total_duration: u64) -> (fee: u64)
    requires
        consultation_fee(total_duration as int) <= u64::MAX,
    ensures
        fee == consultation_fee(total_duration as int),
{
    if total_duration == 0 {
        0
    } else if total_duration <= 60 {
        3500
    } else {
        let additional_hours: u64 = (total_duration - 60) / 60;
        3500 + additional_hours * 1500
    }
}

/// Computes the consultation fee where it is representable, and reports the
/// (astronomically long) durations whose fee would exceed `u64::MAX`.
pub fn try_calculate_fee(total_duration: u64) -> (r: Option<u64>)
    ensures
        match r {
            Some(fee) => consultation_fee(total_duration as int) <= u64::MAX
                && fee == consultation_fee(total_duration as int),
            None => consultation_fee(total_duration as int) > u64::MAX,
        },
{
    if total_duration <= 60 {
        Some(calculate_fee(total_duration))
    } else {
        let additional_hours: u64 = (total_duration - 60) / 60;
        if additional_hours <= 12297829382473032 {
            Some(calculate_fee(total_duration))
        } else {
            None
        }
    }
}

/// Law: a consultation of at most one hour costs the flat first-hour charge,
/// or nothing at all when its duration is zero.
pub proof fn lemma_fee_within_first_hour(total_duration: int)
    requires
        0 <= total_duration <= 60,
    ensures
        consultation_fee(total_duration) == if total_duration > 0 {
            3500int
        } else {
            0int
        },
{
}

/// Law: a consultation of `60 + 60 * k + r` minutes, with `0 <= r < 60` and
/// `k >= 0`, costs `3500 + 1500 * k`: partial hours beyond the first are
/// never rounded up.
pub proof fn lemma_fee_per_additional_hour(hours_beyond_first: int, extra_minutes: int)
    requires
        0 <= hours_beyond_first,
        0 <= extra_minutes < 60,
    ensures
        consultation_fee(60 + 60 * hours_beyond_first + extra_minutes) == 3500 + 1500
            * hours_beyond_first,
{
    let d = 60 + 60 * hours_beyond_first + extra_minutes;
    if d > 60 {
        assert((d - 60) / 60 == hours_beyond_first) by {
            lemma_div_multiples_vanish_fancy(hours_beyond_first, extra_minutes, 60);
        }
    }
}

} // verus!
