//! The state of one run of the chord method on one equation.

use vstd::prelude::*;
use crate::number::Real;

verus! {

/// The count of a problem on which no step has been taken yet.
pub const NOT_STARTED: i64 = -1;

/// Which of the four built-in equations a problem is about.
#[derive(Clone, Copy, Debug, PartialEq, Eq, Structural)]
pub enum CurrentFunction {
    First,
    Second,
    Third,
    Fourth,
}

/// One of the two ends of the bracket `[a, b]`.
#[derive(Clone, Copy, Debug, PartialEq, Eq, Structural)]
pub enum Endpoint {
    Left,
    Right,
}

/// Where a run stands.
#[derive(Clone, Copy, Debug, PartialEq, Eq, Structural)]
pub enum Phase {
    NotStarted,
    Running,
    Converged,
    Failed,
}

/// What there is to tell the user about a run.
#[derive(Clone, Copy, Debug, PartialEq, Eq, Structural)]
pub enum Status {
    /// Nothing: the run can go on.
    Running,
    /// Two successive iterates came within the tolerance of each other.
    ReachedEnd,
    /// A step left the bracket, or the iterate is a NaN or infinite.
    Error,
}

/// A problem: the bracket, the tolerance, the equation, and how far the run has got.
#[derive(Clone, Copy, Debug, PartialEq, Eq, Structural)]
pub struct Function {
    /// The left end of the bracket.
    pub a: Real,
    /// The right end of the bracket.
    pub b: Real,
    /// The tolerance: the run has converged once a step moves the iterate by no
    /// more than this.
    pub eps: Real,
    pub current_function: CurrentFunction,
    /// The end that the chords start from. The first step chooses it; no later
    /// step changes it.
    pub fixed: Endpoint,
    /// The latest iterate.
    pub x2: Real,
    /// `NOT_STARTED`, then the number of chord steps taken after the first step,
    /// which only seeds the run.
    pub current_iteration: i64,
    pub reached_eps: bool,
    pub is_error: bool,
}

impl CurrentFunction {
    /// The place of the equation among the four, from 0.
    pub open spec fn position(self) -> int {
        match self {
            CurrentFunction::First => 0,
            CurrentFunction::Second => 1,
            CurrentFunction::Third => 2,
            CurrentFunction::Fourth => 3,
        }
    }

    /// The place of the equation among the four, from 0.
    pub fn index(self) -> (i: usize)
        ensures
            i == self.position(),
    {
        match self {
            CurrentFunction::First => 0,
            CurrentFunction::Second => 1,
            CurrentFunction::Third => 2,
            CurrentFunction::Fourth => 3,
        }
    }
}

impl Endpoint {
    /// The other end.
    pub open spec fn opposite(self) -> Endpoint {
        match self {
            Endpoint::Left => Endpoint::Right,
            Endpoint::Right => Endpoint::Left,
        }
    }

    /// The other end.
    pub fn other(self) -> (e: Endpoint)
        ensures
            e == self.opposite(),
    {
        match self {
            Endpoint::Left => Endpoint::Right,
            Endpoint::Right => Endpoint::Left,
        }
    }
}

impl Function {
    /// The problem as it is before its first step: the iterate lies on the right
    /// end, which also stands in for the fixed end until one is chosen.
    pub open spec fn initial(left: Real, right: Real, precision: Real, place: CurrentFunction) -> Function {
        Function {
            a: left,
            b: right,
            eps: precision,
            current_function: place,
            fixed: Endpoint::Right,
            x2: right,
            current_iteration: NOT_STARTED,
            reached_eps: false,
            is_error: false,
        }
    }

    /// The problem after a reset: a new one for the same equation.
    pub open spec fn restarted(self, left: Real, right: Real, precision: Real) -> Function {
        Function::initial(left, right, precision, self.current_function)
    }

    /// The first step has been taken.
    pub open spec fn started(self) -> bool {
        self.current_iteration != NOT_STARTED
    }

    /// The position of an end of the bracket.
    pub open spec fn end(self, which: Endpoint) -> Real {
        match which {
            Endpoint::Left => self.a,
            Endpoint::Right => self.b,
        }
    }

    /// `x > b` or `x < a`. No NaN is outside: it compares false with everything.
    pub open spec fn outside(self, x: Real) -> bool {
        x.above(self.b) || x.below(self.a)
    }

    /// No further step is to be taken: the run has converged or failed, or its
    /// iterate is a NaN or infinite.
    pub open spec fn halted(self) -> bool {
        self.reached_eps || self.is_error || self.x2.nan() || self.x2.infinite()
    }

    /// Where the run stands. A failure counts before all else.
    pub open spec fn phase(self) -> Phase {
        if self.is_error {
            Phase::Failed
        } else if self.reached_eps {
            Phase::Converged
        } else if self.started() {
            Phase::Running
        } else {
            Phase::NotStarted
        }
    }

    /// What there is to tell the user: an error before the end.
    pub open spec fn verdict(self) -> Status {
        if self.is_error || self.x2.nan() || self.x2.infinite() {
            Status::Error
        } else if self.reached_eps {
            Status::ReachedEnd
        } else {
            Status::Running
        }
    }

    /// What every problem satisfies that was made by `new` and changed by steps and
    /// resets only: the count never drops below `NOT_STARTED`; a run has not both
    /// converged and failed; it converges on a chord step only, so after the seeding
    /// one; and once started its iterate is not outside the bracket.
    pub open spec fn wf(self) -> bool {
        &&& self.current_iteration >= NOT_STARTED
        &&& !(self.reached_eps && self.is_error)
        &&& self.reached_eps ==> self.current_iteration >= 1
        &&& self.started() ==> !self.outside(self.x2)
    }

    /// A problem for the equation `place` on the bracket `[left, right]` with the
    /// tolerance `precision`, before its first step. The bounds are taken as they
    /// come: a reversed bracket is not refused here, it makes the first step fail.
    pub fn new(left: Real, right: Real, precision: Real, place: CurrentFunction) -> (func: Function)
        ensures
            func == Function::initial(left, right, precision, place),
            func.wf(),
            func.phase() == Phase::NotStarted,
    {
        Function {
            a: left,
            b: right,
            eps: precision,
            current_function: place,
            fixed: Endpoint::Right,
            x2: right,
            current_iteration: NOT_STARTED,
            reached_eps: false,
            is_error: false,
        }
    }

    /// Starts over on new bounds, for the same equation. Nothing of the run so far
    /// is kept.
    pub fn reset(&mut self, left: Real, right: Real, precision: Real)
        ensures
            *final(self) == old(self).restarted(left, right, precision),
            final(self).wf(),
    {
        *self = Function::new(left, right, precision, self.current_function);
    }

    /// The first step has been taken.
    pub fn is_started(&self) -> (r: bool)
        ensures
            r == self.started(),
    {
        self.current_iteration != NOT_STARTED
    }

    /// The position of an end of the bracket.
    pub fn endpoint(&self, which: Endpoint) -> (x: Real)
        ensures
            x == self.end(which),
    {
        match which {
            Endpoint::Left => self.a,
            Endpoint::Right => self.b,
        }
    }

    /// `x > b` or `x < a`.
    pub fn is_outside(&self, x: Real) -> (r: bool)
        ensures
            r == self.outside(x),
    {
        x.gt(self.b) || x.lt(self.a)
    }

    /// No further step is to be taken.
    pub fn is_halted(&self) -> (r: bool)
        ensures
            r == self.halted(),
    {
        self.reached_eps || self.is_error || self.x2.is_nan() || self.x2.is_infinite()
    }

    /// Where the run stands.
    pub fn current_phase(&self) -> (p: Phase)
        ensures
            p == self.phase(),
    {
        if self.is_error {
            Phase::Failed
        } else if self.reached_eps {
            Phase::Converged
        } else if self.is_started() {
            Phase::Running
        } else {
            Phase::NotStarted
        }
    }

    /// What there is to tell the user about the run.
    pub fn status(&self) -> (s: Status)
        ensures
            s == self.verdict(),
    {
        if self.is_error || self.x2.is_nan() || self.x2.is_infinite() {
            Status::Error
        } else if self.reached_eps {
            Status::ReachedEnd
        } else {
            Status::Running
        }
    }
}

} // verus!
