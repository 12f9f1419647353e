//! Progress of a transition as a whole number, and values blended by it.
//!
//! How far a transition has come after a given time is a matter of its
//! easing curve, which is evaluated outside this crate. Here a progress is
//! taken as given: `0` at the start, [`PROGRESS_ONE`] at the end.

use vstd::prelude::*;
use crate::clock::{clamp_i128, clamp_i64, Duration, Instant};
use crate::math::Vec2;

verus! {

/// The time to evaluate the easing of a two-way transition at, at `now`,
/// given its two latest turns; `None` when it never turned.
///
/// It is the time since the latest turn. When the turn before it came no
/// more than `window` earlier, the transition was still on its way back
/// then; that it does not jump, the time between the two turns is added.
pub open spec fn spec_turn_time(
    earlier: Option<Instant>,
    latest: Option<Instant>,
    window: Duration,
    now: Instant,
) -> Option<Duration> {
    match latest {
        Some(l) => match earlier {
            Some(e) => {
                let between = l.nanos - e.nanos;
                if between > window.nanos {
                    Some(now.spec_since(l))
                } else {
                    Some(Duration { nanos: clamp_i128(between + (now.nanos - l.nanos)) })
                }
            },
            None => Some(now.spec_since(l)),
        },
        None => None,
    }
}

/// The time to evaluate the easing of a two-way transition at, at `now`,
/// given its two latest turns. The transition has come as far as the easing
/// says when its latest turn was forth, and as far as the easing leaves of
/// the whole when it was back.
pub fn turn_time(earlier: Option<Instant>, latest: Option<Instant>, window: Duration, now: Instant) -> (r: Option<Duration>)
    ensures
        r == spec_turn_time(earlier, latest, window, now),
{
    match latest {
        Some(l) => match earlier {
            Some(e) => {
                let between = l.since(e);
                if between.is_longer_than(window) {
                    Some(now.since(l))
                } else {
                    Some(between.plus(now.since(l)))
                }
            },
            None => Some(now.since(l)),
        },
        None => None,
    }
}

/// How something that comes while a pointer rests on a widget, and goes
/// when the pointer leaves, shows at a moment: a tip, or the light on a
/// button. Its easing is evaluated at the time that the phase carries.
#[derive(Clone, Copy, Debug, PartialEq, Eq, Structural)]
pub enum FadePhase {
    /// It does not show.
    Hidden,
    /// The pointer rests on the widget: it shows by the value of the
    /// easing, and in full once the easing is over.
    Rising(Duration),
    /// The pointer has left after it had come in full: it shows by what
    /// the value of the easing leaves of the whole, and is gone once the
    /// easing is over.
    Falling(Duration),
    /// The pointer has left before it had come in full: it shows by the
    /// value of the easing, and is gone once the easing is over.
    Sinking(Duration),
}

/// How something shows at `now` that comes once a pointer has rested on a
/// widget for `rest`, and takes `fade` to come and to go. The pointer came
/// at `start`, if it ever did, and left at `lost`, unless it is there.
pub open spec fn spec_hover_phase(
    start: Option<Instant>,
    lost: Option<Instant>,
    rest: Duration,
    fade: Duration,
    now: Instant,
) -> FadePhase {
    match lost {
        Some(l) => match start {
            Some(s) => {
                let away = now.nanos - l.nanos;
                let rested = clamp_i128((now.nanos - s.nanos) - rest.nanos);
                if clamp_i128(rested - away) > fade.nanos {
                    FadePhase::Falling(Duration { nanos: away as i128 })
                } else {
                    FadePhase::Sinking(
                        Duration { nanos: clamp_i128(clamp_i128(rested - away) - away) },
                    )
                }
            },
            None => FadePhase::Hidden,
        },
        None => match start {
            Some(s) => FadePhase::Rising(
                Duration { nanos: clamp_i128((now.nanos - s.nanos) - rest.nanos) },
            ),
            None => FadePhase::Hidden,
        },
    }
}

/// How something shows at `now` that comes once a pointer has rested on a
/// widget for `rest`, and takes `fade` to come and to go.
pub fn hover_phase(start: Option<Instant>, lost: Option<Instant>, rest: Duration, fade: Duration, now: Instant) -> (r: FadePhase)
    ensures
        r == spec_hover_phase(start, lost, rest, fade, now),
{
    match lost {
        Some(l) => match start {
            Some(s) => {
                let away = now.since(l);
                let rested = now.since(s).minus(rest);
                if rested.minus(away).is_longer_than(fade) {
                    FadePhase::Falling(away)
                } else {
                    FadePhase::Sinking(rested.minus(away).minus(away))
                }
            },
            None => FadePhase::Hidden,
        },
        None => match start {
            Some(s) => FadePhase::Rising(now.since(s).minus(rest)),
            None => FadePhase::Hidden,
        },
    }
}

/// The progress of a transition that has come to its end.
pub const PROGRESS_ONE: i64 = 1_000_000;

/// The progress `t` pulled into the range from nothing to the whole.
pub open spec fn clamp_progress(t: i64) -> int {
    if t < 0 {
        0
    } else if t > PROGRESS_ONE {
        PROGRESS_ONE as int
    } else {
        t as int
    }
}

/// The value a part `t` of the way from `from` to `to`, rounded towards
/// `from`.
pub open spec fn spec_blend(from: i64, to: i64, t: i64) -> i64 {
    if to >= from {
        clamp_i64(from + ((to - from) * clamp_progress(t)) / (PROGRESS_ONE as int))
    } else {
        clamp_i64(from - ((from - to) * clamp_progress(t)) / (PROGRESS_ONE as int))
    }
}

/// The point a part `t` of the way from `from` to `to`.
pub open spec fn spec_blend_vec2(from: Vec2, to: Vec2, t: i64) -> Vec2 {
    Vec2 { x: spec_blend(from.x, to.x, t), y: spec_blend(from.y, to.y, t) }
}

/// What is left of the whole after the progress `t`.
pub open spec fn spec_remaining(t: i64) -> i64 {
    (PROGRESS_ONE - clamp_progress(t)) as i64
}

/// The value a part `t` of the way from `from` to `to`, rounded towards
/// `from`. A progress outside the range from nothing to the whole counts as
/// the nearer end of the range.
pub fn blend(from: i64, to: i64, t: i64) -> (r: i64)
    ensures
        r == spec_blend(from, to, t),
{
    let part: i128 = if t < 0 {
        0
    } else if t > PROGRESS_ONE {
        PROGRESS_ONE as i128
    } else {
        t as i128
    };
    if to >= from {
        let way: i128 = to as i128 - from as i128;
        assert(0 <= way * part <= 0x1_0000_0000_0000_0000 * 1_000_000) by (nonlinear_arith)
            requires
                0 <= way <= 0x1_0000_0000_0000_0000,
                0 <= part <= 1_000_000,
        ;
        let step: i128 = (way * part) / (PROGRESS_ONE as i128);
        let v: i128 = from as i128 + step;
        if v > i64::MAX as i128 {
            i64::MAX
        } else {
            v as i64
        }
    } else {
        let way: i128 = from as i128 - to as i128;
        assert(0 <= way * part <= 0x1_0000_0000_0000_0000 * 1_000_000) by (nonlinear_arith)
            requires
                0 <= way <= 0x1_0000_0000_0000_0000,
                0 <= part <= 1_000_000,
        ;
        let step: i128 = (way * part) / (PROGRESS_ONE as i128);
        let v: i128 = from as i128 - step;
        if v < i64::MIN as i128 {
            i64::MIN
        } else {
            v as i64
        }
    }
}

/// The point a part `t` of the way from `from` to `to`.
pub fn blend_vec2(from: Vec2, to: Vec2, t: i64) -> (r: Vec2)
    ensures
        r == spec_blend_vec2(from, to, t),
{
    Vec2 { x: blend(from.x, to.x, t), y: blend(from.y, to.y, t) }
}

/// What is left of the whole after the progress `t`.
pub fn remaining(t: i64) -> (r: i64)
    ensures
        r == spec_remaining(t),
{
    if t < 0 {
        PROGRESS_ONE
    } else if t > PROGRESS_ONE {
        0
    } else {
        PROGRESS_ONE - t
    }
}

/// At no progress a blend is still at its start, and at full progress it
/// has arrived.
pub proof fn lemma_blend_ends(from: i64, to: i64)
    ensures
        spec_blend(from, to, 0) == from,
        spec_blend(from, to, PROGRESS_ONE) == to,
{
    assert(((to - from) * 1_000_000) / 1_000_000 == to - from) by (nonlinear_arith);
    assert(((from - to) * 1_000_000) / 1_000_000 == from - to) by (nonlinear_arith);
    assert(((to - from) * 0) / 1_000_000 == 0) by (nonlinear_arith);
    assert(((from - to) * 0) / 1_000_000 == 0) by (nonlinear_arith);
}

/// A blend never goes back: with more progress it is no nearer to its
/// start.
pub proof fn lemma_blend_monotone(from: i64, to: i64, earlier: i64, later: i64)
    requires
        earlier <= later,
    ensures
        to >= from ==> spec_blend(from, to, earlier) <= spec_blend(from, to, later),
        to < from ==> spec_blend(from, to, earlier) >= spec_blend(from, to, later),
{
    let a = clamp_progress(earlier);
    let b = clamp_progress(later);
    let way = if to >= from {
        to - from
    } else {
        from - to
    };
    assert(way * a <= way * b) by (nonlinear_arith)
        requires
            0 <= way,
            0 <= a <= b,
    ;
    assert((way * a) / 1_000_000 <= (way * b) / 1_000_000) by (nonlinear_arith)
        requires
            way * a <= way * b,
    ;
    assert(0 <= (way * a) / 1_000_000) by (nonlinear_arith)
        requires
            0 <= way,
            0 <= a,
    ;
    assert((way * b) / 1_000_000 <= way) by (nonlinear_arith)
        requires
            0 <= way,
            0 <= b <= 1_000_000,
    ;
}

} // verus!
