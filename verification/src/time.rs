//! Points and spans of time as whole nanoseconds.
//!
//! `Duration` and `Instant` are opaque to the verifier. A span is modelled by
//! its length in nanoseconds, a point by its position in nanoseconds on the
//! line of the monotonic clock; where on that line zero lies is left open.

use std::time::{Duration, Instant};
use vstd::prelude::*;

verus! {

/// Declares [`std::time::Instant`], whose representation is private.
#[verifier::external_type_specification]
#[verifier::external_body]
pub struct ExInstant(std::time::Instant);

/// The length of a span in nanoseconds, as `Duration::as_nanos` returns it.
pub uninterp spec fn duration_nanos(span: Duration) -> u128;

/// The position of a point in time, in nanoseconds on the line of the
/// monotonic clock.
pub uninterp spec fn instant_nanos(point: Instant) -> int;

/// Whether some `Instant` lies at this position: the bounds within which an
/// `Instant` can be held differ from one platform to the next.
pub open spec fn representable(nanos: int) -> bool {
    exists|point: Instant| #[trigger] instant_nanos(point) == nanos
}

/// The position of an observation, if there is one.
pub open spec fn position(point: Option<Instant>) -> Option<int> {
    match point {
        Some(t) => Some(instant_nanos(t)),
        None => None,
    }
}

/// `Duration::as_nanos` returns the total number of nanoseconds of the span.
pub assume_specification[ Duration::as_nanos ](span: &Duration) -> (nanos: u128)
    ensures
        nanos == duration_nanos(*span),
;

/// `Instant::checked_add` returns the point that lies the given span after
/// this one, or `None` if no `Instant` can hold it.
pub assume_specification[ Instant::checked_add ](point: &Instant, span: Duration) -> (sum: Option<
    Instant,
>)
    ensures
        match sum {
            Some(later) => instant_nanos(later) == instant_nanos(*point) + duration_nanos(span),
            None => !representable(instant_nanos(*point) + duration_nanos(span)),
        },
;

/// `PartialOrd::ge` on two `Instant`s: they are ordered as they follow each
/// other in time.
#[verifier::external_body]
pub(crate) fn not_before(point: Instant, reference: Instant) -> (r: bool)
    ensures
        r == (instant_nanos(point) >= instant_nanos(reference)),
{
    point >= reference
}

/// The later of two points in time.
pub(crate) fn later(a: Instant, b: Instant) -> (r: Instant)
    ensures
        r == (if instant_nanos(b) >= instant_nanos(a) { b } else { a }),
{
    if not_before(b, a) {
        b
    } else {
        a
    }
}

/// The earlier of two points in time.
pub(crate) fn earlier(a: Instant, b: Instant) -> (r: Instant)
    ensures
        r == (if instant_nanos(b) >= instant_nanos(a) { a } else { b }),
{
    if not_before(b, a) {
        a
    } else {
        b
    }
}

} // verus!
