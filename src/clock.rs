//! Clock readings: the span between two ticks of a free-running hardware
//! counter, and its length in the milliseconds that conditions compare.
use vstd::prelude::*;

use embedded_time::duration::{Generic, Milliseconds};
use embedded_time::fraction::Fraction;

verus! {

/// What embedded_time's conversion makes of `ticks` ticks, each lasting
/// `numerator / denominator` seconds, as a `u32` count of milliseconds;
/// `None` when the conversion overflows.
pub uninterp spec fn millis_of_ticks(ticks: u32, numerator: u32, denominator: u32) -> Option<u32>;

/// Relies on embedded_time's `TryFrom<duration::Generic<u32>>` for
/// `duration::Milliseconds<u32>`, whose result depends on the tick count and
/// the scaling factor alone. Zero ticks scale to zero whenever the
/// conversion succeeds, and a scaling factor of 1/1000 (ticks that are
/// milliseconds) keeps the count as it is. A zero denominator would make
/// its fraction comparisons divide by zero, hence the `requires`.
#[verifier::external_body]
fn ticks_to_millis(ticks: u32, numerator: u32, denominator: u32) -> (r: Option<u32>)
    requires
        denominator > 0,
    ensures
        r == millis_of_ticks(ticks, numerator, denominator),
        ticks == 0 && r is Some ==> r == Some(0u32),
        numerator == 1 && denominator == 1000 ==> r == Some(ticks),
{
    let span = Generic::new(ticks, Fraction::new(numerator, denominator));
    Milliseconds::<u32>::try_from(span).ok().map(|m| m.0)
}

/// Half the range of the counter: a reading at most this many ticks past
/// another counts as later than it, one further past as earlier. This lets
/// the counter wrap around.
pub const HALF_RANGE: u32 = 0x7fff_ffff;

/// Ticks of the counter from `since` to `now`, across a wrap of the counter.
pub open spec fn ticks_between(since: u32, now: u32) -> u32 {
    now.wrapping_sub(since)
}

/// Whether reading `now` is not earlier than reading `since` of a counter
/// that may wrap.
pub open spec fn not_earlier(since: u32, now: u32) -> bool {
    ticks_between(since, now) <= HALF_RANGE
}

/// Milliseconds from tick `since` to tick `now` of a counter that may wrap,
/// whose tick lasts `numerator / denominator` seconds. Only the span in
/// ticks is converted. `None` when `now` is earlier than `since`, when the
/// denominator is zero, or when the span does not fit in milliseconds.
pub fn millis_between(since: u32, now: u32, numerator: u32, denominator: u32) -> (r: Option<u32>)
    ensures
        !not_earlier(since, now) ==> r is None,
        denominator == 0 ==> r is None,
        since == now && r is Some ==> r == Some(0u32),
        numerator == 1 && denominator == 1000 && not_earlier(since, now) ==> r == Some(
            ticks_between(since, now),
        ),
        not_earlier(since, now) && denominator > 0 ==> r == millis_of_ticks(
            ticks_between(since, now),
            numerator,
            denominator,
        ),
{
    let ticks = now.wrapping_sub(since);
    if ticks > HALF_RANGE || denominator == 0 {
        None
    } else {
        ticks_to_millis(ticks, numerator, denominator)
    }
}

} // verus!
