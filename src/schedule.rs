use vstd::prelude::*;

verus! {

/// First hour of the night window.
pub const NIGHT_START: u32 = 19;

/// First hour of the day, when the night window ends.
pub const DAY_START: u32 = 7;

/// The night window: from 19:00 up to, not including, 07:00.
pub open spec fn is_night(hour: int) -> bool {
    hour >= 19 || hour < 7
}

/// Whether the schedule wants the filter on at the given local hour of day.
pub fn desired_state(hour: u32) -> (r: bool)
    ensures
        r == is_night(hour as int),
{
    hour >= NIGHT_START || hour < DAY_START
}

/// Relies on chrono's `Local::now` and `Timelike::hour`: the current local
/// civil hour, documented to lie between 0 and 23.
#[verifier::external_body]
pub(crate) fn local_hour() -> (r: u32)
    ensures
        r < 24,
{
    chrono::Timelike::hour(&chrono::Local::now())
}

} // verus!
