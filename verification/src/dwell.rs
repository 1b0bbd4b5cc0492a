//! Adaptive-dwell controller.
//!
//! Decides how long to dwell on each channel, by whether a signal has been
//! observed during the current hop:
//!   * With no detection during the dwell, the deadline is `start + min`.
//!   * A detection during the dwell moves the deadline out to
//!     `detection + extension`, capped at `start + max`.
//!   * With `max <= min` the deadline is fixed at `start + min`.

use std::time::{Duration, Instant};
use vstd::prelude::*;

use crate::time::{duration_nanos, earlier, instant_nanos, later, not_before, position, representable};

verus! {

/// Per-hop deadline calculator for hopping SDR backends.
///
/// Construct with `{ min, max, extension }` and call
/// [`deadline`](Self::deadline) once per hop iteration. Pair with
/// [`DwellAdvice`](crate::DwellAdvice) to get the most recent signal
/// observation on the current channel.
#[derive(Debug, Clone, Copy)]
pub struct DwellController {
    pub min: Duration,
    pub max: Duration,
    pub extension: Duration,
}

impl DwellController {
    /// Detections can move the deadline.
    pub open spec fn adaptive(self) -> bool {
        duration_nanos(self.max) > duration_nanos(self.min)
    }

    /// A detection at `latest` counts for the hop that began at `start`.
    pub open spec fn extends(self, start: int, latest: Option<int>) -> bool {
        self.adaptive() && (latest matches Some(t) && t >= start)
    }

    /// The position of the deadline, for a hop that began at `start` and a
    /// latest observation at `latest`.
    pub open spec fn deadline_nanos(self, start: int, latest: Option<int>) -> int {
        let floor = start + duration_nanos(self.min);
        let cap = start + duration_nanos(self.max);
        if self.extends(start, latest) {
            let extended = latest->0 + duration_nanos(self.extension);
            if extended < floor {
                floor
            } else if extended > cap {
                cap
            } else {
                extended
            }
        } else {
            floor
        }
    }

    /// Every point in time from which the deadline is chosen can be held by an
    /// `Instant`.
    pub open spec fn in_range(self, start: int, latest: Option<int>) -> bool {
        &&& representable(start + duration_nanos(self.min))
        &&& representable(start + duration_nanos(self.max))
        &&& self.extends(start, latest) ==> representable(
            latest->0 + duration_nanos(self.extension),
        )
    }

    /// Computes the deadline for the current hop. `latest_signal` is the most
    /// recent observation on this channel, or `None` if nothing has been seen.
    pub fn deadline(&self, start: Instant, latest_signal: Option<Instant>) -> (deadline: Instant)
        requires
            self.in_range(instant_nanos(start), position(latest_signal)),
        ensures
            instant_nanos(deadline) == self.deadline_nanos(
                instant_nanos(start),
                position(latest_signal),
            ),
    {
        self.checked_deadline(start, latest_signal).unwrap()
    }

    /// As [`deadline`](Self::deadline), but returns `None` where one of the
    /// points in time that it adds up cannot be held by an `Instant`.
    pub fn checked_deadline(&self, start: Instant, latest_signal: Option<Instant>) -> (r: Option<
        Instant,
    >)
        ensures
            r is Some <==> self.in_range(instant_nanos(start), position(latest_signal)),
            r matches Some(deadline) ==> instant_nanos(deadline) == self.deadline_nanos(
                instant_nanos(start),
                position(latest_signal),
            ),
    {
        let min_deadline = start.checked_add(self.min)?;
        let max_deadline = start.checked_add(self.max)?;
        if !self.is_adaptive() {
            return Some(min_deadline);
        }
        match latest_signal {
            Some(t) if not_before(t, start) => {
                let extended = t.checked_add(self.extension)?;
                Some(earlier(later(extended, min_deadline), max_deadline))
            },
            _ => Some(min_deadline),
        }
    }

    /// `true` when detections make the dwell longer than `min`; `false` means
    /// that every hop lasts exactly `min`.
    pub fn is_adaptive(&self) -> (r: bool)
        ensures
            r == self.adaptive(),
    {
        self.max.as_nanos() > self.min.as_nanos()
    }
}

/// With nothing observed the deadline is `start + min`.
pub proof fn quiet_channel_gets_min(c: DwellController, start: int)
    ensures
        c.deadline_nanos(start, None) == start + duration_nanos(c.min),
{
}

/// An observation from before the hop counts as none.
pub proof fn stale_signal_is_ignored(c: DwellController, start: int, t: int)
    requires
        t < start,
    ensures
        c.deadline_nanos(start, Some(t)) == c.deadline_nanos(start, None),
{
}

/// With `max <= min` every hop lasts exactly `min`, whatever is observed.
pub proof fn fixed_when_max_at_most_min(c: DwellController, start: int, latest: Option<int>)
    requires
        duration_nanos(c.max) <= duration_nanos(c.min),
    ensures
        !c.adaptive(),
        c.deadline_nanos(start, latest) == start + duration_nanos(c.min),
{
}

/// No hop is cut shorter than `min`.
pub proof fn min_is_granted(c: DwellController, start: int, latest: Option<int>)
    ensures
        c.deadline_nanos(start, latest) >= start + duration_nanos(c.min),
{
}

/// No hop outlasts `max`, if `max` is not below `min`.
pub proof fn max_is_hard_cap(c: DwellController, start: int, latest: Option<int>)
    requires
        duration_nanos(c.max) >= duration_nanos(c.min),
    ensures
        c.deadline_nanos(start, latest) <= start + duration_nanos(c.max),
{
}

/// Unless `min` or `max` stands in the way, a detection during the hop moves
/// the deadline to exactly `extension` after it.
pub proof fn detection_sets_deadline(c: DwellController, start: int, t: int)
    requires
        duration_nanos(c.max) > duration_nanos(c.min),
        t >= start,
        start + duration_nanos(c.min) <= t + duration_nanos(c.extension) <= start + duration_nanos(
            c.max,
        ),
    ensures
        c.deadline_nanos(start, Some(t)) == t + duration_nanos(c.extension),
{
}

/// A detection whose extension would end before `min` leaves the hop at `min`.
pub proof fn early_detection_keeps_min(c: DwellController, start: int, t: int)
    requires
        t + duration_nanos(c.extension) <= start + duration_nanos(c.min),
    ensures
        c.deadline_nanos(start, Some(t)) == start + duration_nanos(c.min),
{
}

/// A detection whose extension would reach `max` or go past it, however long
/// the extension is, holds the channel up to exactly `max`.
pub proof fn detection_past_cap_gets_max(c: DwellController, start: int, t: int)
    requires
        duration_nanos(c.max) > duration_nanos(c.min),
        t >= start,
        t + duration_nanos(c.extension) >= start + duration_nanos(c.max),
    ensures
        c.deadline_nanos(start, Some(t)) == start + duration_nanos(c.max),
{
}

/// The more recent the observation, the later the deadline, or the same: new
/// detections never call the hop off sooner, and nor does the first.
pub proof fn newer_signal_never_shortens(c: DwellController, start: int, t: int, newer: int)
    requires
        t <= newer,
    ensures
        c.deadline_nanos(start, None) <= c.deadline_nanos(start, Some(t)),
        c.deadline_nanos(start, Some(t)) <= c.deadline_nanos(start, Some(newer)),
{
}

/// A hot channel keeps listening: at a detection before the cap the hop is not
/// over yet.
pub proof fn hot_channel_keeps_listening(c: DwellController, start: int, t: int)
    requires
        duration_nanos(c.max) > duration_nanos(c.min),
        duration_nanos(c.extension) > 0,
        start <= t < start + duration_nanos(c.max),
    ensures
        c.deadline_nanos(start, Some(t)) > t,
{
}

/// The controller is adaptive exactly if `max` is above `min`, and exactly if
/// some observation makes a hop longer than `min`.
pub proof fn adaptive_iff_some_signal_extends(c: DwellController, start: int)
    ensures
        c.adaptive() <==> duration_nanos(c.max) > duration_nanos(c.min),
        c.adaptive() <==> exists|t: int| #[trigger]
            c.deadline_nanos(start, Some(t)) > start + duration_nanos(c.min),
{
    if c.adaptive() {
        assert(c.deadline_nanos(start, Some(start + duration_nanos(c.max))) > start
            + duration_nanos(c.min));
    }
}

/// Only distances in time matter: a hop that begins later, with its
/// observation later by as much, ends later by as much.
pub proof fn deadline_moves_with_start(c: DwellController, start: int, latest: Option<int>, by: int)
    ensures
        c.deadline_nanos(
            start + by,
            match latest {
                Some(t) => Some(t + by),
                None => None,
            },
        ) == c.deadline_nanos(start, latest) + by,
{
}

/// `is_adaptive` says whether `max` is longer than `min`, for spans of any
/// length.
pub proof fn is_adaptive_compares_max_with_min(c: DwellController, adaptive: bool)
    requires
        call_ensures(DwellController::is_adaptive, (&c,), adaptive),
    ensures
        adaptive <==> duration_nanos(c.max) > duration_nanos(c.min),
{
}

/// A controller that reports itself adaptive answers to some detection with a
/// hop longer than `min`, and one that does not answers to none.
pub proof fn is_adaptive_tells_what_deadline_does(
    c: DwellController,
    adaptive: bool,
    start: Instant,
    t: Instant,
    deadline: Instant,
)
    requires
        call_ensures(DwellController::is_adaptive, (&c,), adaptive),
        call_ensures(DwellController::deadline, (&c, start, Some(t)), deadline),
        instant_nanos(t) >= instant_nanos(start) + duration_nanos(c.max),
    ensures
        adaptive <==> instant_nanos(deadline) > instant_nanos(start) + duration_nanos(c.min),
        adaptive ==> instant_nanos(deadline) == instant_nanos(start) + duration_nanos(c.max),
        !adaptive ==> instant_nanos(deadline) == instant_nanos(start) + duration_nanos(c.min),
{
}

/// A detection during the hop, with `max` above `min`, puts the deadline
/// `extension` after it, but not before `start + min` nor after `start + max`.
pub proof fn deadline_follows_detection(
    c: DwellController,
    start: Instant,
    t: Instant,
    deadline: Instant,
)
    requires
        call_ensures(DwellController::deadline, (&c, start, Some(t)), deadline) || call_ensures(
            DwellController::checked_deadline,
            (&c, start, Some(t)),
            Some(deadline),
        ),
        duration_nanos(c.max) > duration_nanos(c.min),
        instant_nanos(t) >= instant_nanos(start),
    ensures
        ({
            let floor = instant_nanos(start) + duration_nanos(c.min);
            let cap = instant_nanos(start) + duration_nanos(c.max);
            let extended = instant_nanos(t) + duration_nanos(c.extension);
            &&& extended <= floor ==> instant_nanos(deadline) == floor
            &&& floor <= extended <= cap ==> instant_nanos(deadline) == extended
            &&& extended >= cap ==> instant_nanos(deadline) == cap
        }),
{
}

/// With nothing observed, or nothing since the hop began, or with `max` not
/// above `min`, the deadline is `start + min`.
pub proof fn deadline_without_detection_is_min(
    c: DwellController,
    start: Instant,
    latest: Option<Instant>,
    deadline: Instant,
)
    requires
        call_ensures(DwellController::deadline, (&c, start, latest), deadline) || call_ensures(
            DwellController::checked_deadline,
            (&c, start, latest),
            Some(deadline),
        ),
        (latest matches Some(t) ==> instant_nanos(t) < instant_nanos(start)) || duration_nanos(
            c.max,
        ) <= duration_nanos(c.min),
    ensures
        instant_nanos(deadline) == instant_nanos(start) + duration_nanos(c.min),
{
}

/// Wherever the points in time that a deadline is chosen from can be held by an
/// `Instant`, `deadline` may be called and `checked_deadline` gives an answer.
pub proof fn deadline_is_given_in_range(
    c: DwellController,
    start: Instant,
    latest: Option<Instant>,
    checked: Option<Instant>,
)
    requires
        call_ensures(DwellController::checked_deadline, (&c, start, latest), checked),
        representable(instant_nanos(start) + duration_nanos(c.min)),
        representable(instant_nanos(start) + duration_nanos(c.max)),
        latest matches Some(t) ==> instant_nanos(t) < instant_nanos(start) || duration_nanos(c.max)
            <= duration_nanos(c.min) || representable(
            instant_nanos(t) + duration_nanos(c.extension),
        ),
    ensures
        checked is Some,
        call_requires(DwellController::deadline, (&c, start, latest)),
{
}

/// Wherever `start + min` or `start + max` cannot be held by an `Instant`, or
/// where a detection counts and its extension cannot, `checked_deadline` gives
/// no answer.
pub proof fn no_deadline_out_of_range(
    c: DwellController,
    start: Instant,
    latest: Option<Instant>,
    checked: Option<Instant>,
)
    requires
        call_ensures(DwellController::checked_deadline, (&c, start, latest), checked),
        !representable(instant_nanos(start) + duration_nanos(c.min)) || !representable(
            instant_nanos(start) + duration_nanos(c.max),
        ) || (latest matches Some(t) && instant_nanos(t) >= instant_nanos(start)
            && duration_nanos(c.max) > duration_nanos(c.min) && !representable(
            instant_nanos(t) + duration_nanos(c.extension),
        )),
    ensures
        checked is None,
{
}

} // verus!
