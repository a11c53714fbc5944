use vstd::prelude::*;

verus! {

/// A menu choice, accepted when it numbers one of the `num_options` entries
/// (counted from one).
pub fn check_option(option: u8, num_options: u8) -> (r: Option<u8>)
    ensures
        r == (if 1 <= option <= num_options { Some(option) } else { None::<u8> }),
{
    if 1 <= option && option <= num_options {
        Some(option)
    } else {
        None
    }
}

/// A number entered for a setting, accepted when it is above zero.
pub fn check_positive(value: u32) -> (r: Option<u32>)
    ensures
        r == (if value > 0 { Some(value) } else { None::<u32> }),
{
    if value > 0 {
        Some(value)
    } else {
        None
    }
}

/// A number of minutes in seconds, if that fits in a `u32`.
pub fn minutes_to_seconds(minutes: u32) -> (r: Option<u32>)
    ensures
        minutes * 60 <= u32::MAX ==> r == Some((minutes * 60) as u32),
        minutes * 60 > u32::MAX ==> r is None,
{
    if minutes <= u32::MAX / 60 {
        Some(minutes * 60)
    } else {
        None
    }
}

} // verus!
