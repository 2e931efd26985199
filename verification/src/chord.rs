//! One step of the chord method.
//!
//! The arithmetic on the real numbers is the caller's: the values of the equation
//! and of the chord formula come in as a `Reading`. What is decided here is which
//! end of the bracket stays fixed, whether the step has converged, whether its
//! iterate is accepted, and what is drawn for it.

use vstd::prelude::*;
use crate::number::Real;
use crate::problem::{Endpoint, Function};

verus! {

/// A point of the plane.
#[derive(Clone, Copy, Debug, PartialEq, Eq, Structural)]
pub struct Point {
    pub x: Real,
    pub y: Real,
}

/// A straight line between two points.
#[derive(Clone, Copy, Debug, PartialEq, Eq, Structural)]
pub struct Segment {
    pub from: Point,
    pub to: Point,
}

/// What the caller has computed for one step on a problem, where `f` is the
/// problem's equation and `[a, b]` its bracket. The first step reads `sign`, `f_a`
/// and `f_b`; every later step reads `f_a`, `f_b`, `x2`, `delta` and `f_x2`. What a
/// step does not read may hold anything.
#[derive(Clone, Copy, Debug, PartialEq, Eq, Structural)]
pub struct Reading {
    /// `f(a) * f''(a)`.
    pub sign: Real,
    /// `f(a)`.
    pub f_a: Real,
    /// `f(b)`.
    pub f_b: Real,
    /// Where the chord from the fixed end to the current iterate `x1` meets the
    /// axis. With the left end fixed this is
    /// `x1 - f(x1) / (f(x1) - f(fixed)) * (x1 - fixed)`, with the right end fixed
    /// `x1 - f(x1) / (f(fixed) - f(x1)) * (fixed - x1)`.
    pub x2: Real,
    /// `x2 - x1`.
    pub delta: Real,
    /// `f(x2)`.
    pub f_x2: Real,
}

/// An accepted step.
#[derive(Clone, Copy, Debug, PartialEq, Eq, Structural)]
pub struct Answer {
    /// The end that the chords start from.
    pub fixed: Endpoint,
    /// The new iterate.
    pub x2: Real,
    /// The equation's value at the new iterate.
    pub f_x2: Real,
    /// The step moved the iterate by no more than the tolerance.
    pub reached_eps: bool,
    /// The chord of this step, from the fixed end's point on the graph to the new
    /// iterate's.
    pub chord: Segment,
    /// The vertical line from the new iterate's point on the graph down (or up) to
    /// the axis.
    pub drop: Segment,
}

impl Reading {
    /// The equation's value at an end of the bracket.
    pub open spec fn at(self, which: Endpoint) -> Real {
        match which {
            Endpoint::Left => self.f_a,
            Endpoint::Right => self.f_b,
        }
    }

    /// The equation's value at an end of the bracket.
    pub fn value_at(&self, which: Endpoint) -> (y: Real)
        ensures
            y == self.at(which),
    {
        match which {
            Endpoint::Left => self.f_a,
            Endpoint::Right => self.f_b,
        }
    }
}

/// The end that stays fixed. The first step takes the left end where
/// `f(a) * f''(a) > 0` and the right end otherwise, also where the product is a
/// NaN; a later step keeps what the first one chose and does not look at the sign.
pub open spec fn fixed_end(func: Function, reading: Reading) -> Endpoint {
    if func.started() {
        func.fixed
    } else if reading.sign.positive() {
        Endpoint::Left
    } else {
        Endpoint::Right
    }
}

/// The iterate that a step proposes: the first step the end opposite the fixed
/// one, a later step the chord formula's value.
pub open spec fn proposed(func: Function, reading: Reading) -> Real {
    if func.started() {
        reading.x2
    } else {
        func.end(fixed_end(func, reading).opposite())
    }
}

/// The equation's value at the proposed iterate.
pub open spec fn proposed_value(func: Function, reading: Reading) -> Real {
    if func.started() {
        reading.f_x2
    } else {
        reading.at(fixed_end(func, reading).opposite())
    }
}

/// The step moves the iterate by no more than the tolerance: `|x2 - x1| <= eps`.
/// The first step moves nothing and never converges.
pub open spec fn converges(func: Function, reading: Reading) -> bool {
    func.started() && reading.delta.absolute().at_most(func.eps)
}

/// The chord drawn for a step that fixes `fixed` and arrives at `x2`.
pub open spec fn chord_of(func: Function, reading: Reading, fixed: Endpoint, x2: Real, f_x2: Real) -> Segment {
    Segment {
        from: Point { x: func.end(fixed), y: reading.at(fixed) },
        to: Point { x: x2, y: f_x2 },
    }
}

/// The line from the point of `x2` on the graph to the axis.
pub open spec fn drop_of(x2: Real, f_x2: Real) -> Segment {
    Segment { from: Point { x: x2, y: f_x2 }, to: Point { x: x2, y: Real::zero() } }
}

/// What a step on `func` with `reading` returns: nothing where the proposed iterate
/// is outside the bracket, else the iterate with all that goes with it.
pub open spec fn chord_step(func: Function, reading: Reading) -> Option<Answer> {
    let fixed = fixed_end(func, reading);
    let x2 = proposed(func, reading);
    let f_x2 = proposed_value(func, reading);
    if func.outside(x2) {
        None
    } else {
        Some(
            Answer {
                fixed,
                x2,
                f_x2,
                reached_eps: converges(func, reading),
                chord: chord_of(func, reading, fixed, x2, f_x2),
                drop: drop_of(x2, f_x2),
            },
        )
    }
}

/// One step of the chord method on `func`, which is left as it is: the caller
/// commits the answer.
///
/// The step fails, with `None`, exactly where its iterate is greater than `b` or
/// less than `a`. A NaN is neither, so a NaN iterate is accepted.
pub fn get_root_chord_method(func: &Function, reading: &Reading) -> (answer: Option<Answer>)
    ensures
        answer == chord_step(*func, *reading),
        answer is None <==> func.outside(proposed(*func, *reading)),
        answer matches Some(step) ==> {
            &&& step.fixed == fixed_end(*func, *reading)
            &&& step.x2 == proposed(*func, *reading)
            &&& step.f_x2 == proposed_value(*func, *reading)
            &&& step.reached_eps == converges(*func, *reading)
            &&& step.chord.from == (Point { x: func.end(step.fixed), y: reading.at(step.fixed) })
            &&& step.chord.to == (Point { x: step.x2, y: step.f_x2 })
            &&& step.drop.from == (Point { x: step.x2, y: step.f_x2 })
            &&& step.drop.to == (Point { x: step.x2, y: Real::zero() })
        },
{
    let fixed: Endpoint;
    let x2: Real;
    let f_x2: Real;
    let mut reached_eps: bool = false;
    if !func.is_started() {
        if reading.sign.gt(Real::origin()) {
            fixed = Endpoint::Left;
        } else {
            fixed = Endpoint::Right;
        }
        x2 = func.endpoint(fixed.other());
        f_x2 = reading.value_at(fixed.other());
    } else {
        fixed = func.fixed;
        x2 = reading.x2;
        f_x2 = reading.f_x2;
        if reading.delta.abs().le(func.eps) {
            reached_eps = true;
        }
    }
    if func.is_outside(x2) {
        return None;
    }
    let here = Point { x: x2, y: f_x2 };
    Some(
        Answer {
            fixed,
            x2,
            f_x2,
            reached_eps,
            chord: Segment { from: Point { x: func.endpoint(fixed), y: reading.value_at(fixed) }, to: here },
            drop: Segment { from: here, to: Point { x: x2, y: Real::origin() } },
        },
    )
}

} // verus!
