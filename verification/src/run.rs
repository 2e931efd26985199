//! A run: the steps taken on one problem, each committed to it.
//!
//! The caller drives a run. It asks the problem what is to be computed next,
//! computes it, and hands the reading over to `next_iteration`, until the problem
//! asks for nothing more.

use vstd::prelude::*;
use crate::number::Real;
use crate::problem::{CurrentFunction, Endpoint, Function};
use crate::chord::{Answer, Reading, chord_step, get_root_chord_method};

verus! {

/// What the caller is to compute for the next step.
#[derive(Clone, Copy, Debug, PartialEq, Eq, Structural)]
pub enum Request {
    /// Nothing: no further step is to be taken.
    Halt,
    /// With `f` for the equation, on the bracket `[a, b]`: the sign
    /// `f(a) * f''(a)` and the values `f(a)` and `f(b)`.
    Seed { equation: CurrentFunction, a: Real, b: Real },
    /// With `f` for the equation, on the bracket `[a, b]`: the values `f(a)` and
    /// `f(b)`, the point `x2` where the chord from the end `fixed` to the iterate
    /// `x1` meets the axis, the difference `x2 - x1` and the value `f(x2)`.
    Chord { equation: CurrentFunction, a: Real, b: Real, fixed: Endpoint, x1: Real },
}

/// How a step ended.
#[derive(Clone, Copy, Debug, PartialEq, Eq, Structural)]
pub enum Outcome {
    /// No step was taken: the run had ended before.
    Halted,
    /// The step left the bracket. The run has failed.
    Failure,
    /// The step was accepted and committed.
    Advanced(Answer),
}

impl Function {
    /// What the next step on this problem needs.
    pub open spec fn wanted(self) -> Request {
        if self.halted() {
            Request::Halt
        } else if !self.started() {
            Request::Seed { equation: self.current_function, a: self.a, b: self.b }
        } else {
            Request::Chord {
                equation: self.current_function,
                a: self.a,
                b: self.b,
                fixed: self.fixed,
                x1: self.x2,
            }
        }
    }

    /// How the next step on this problem ends, given its reading.
    pub open spec fn outcome(self, reading: Reading) -> Outcome {
        if self.halted() {
            Outcome::Halted
        } else {
            match chord_step(self, reading) {
                None => Outcome::Failure,
                Some(answer) => Outcome::Advanced(answer),
            }
        }
    }

    /// The problem after its next step. A failed step sets the failure flag and
    /// nothing else; an accepted one commits the fixed end, the iterate and the
    /// convergence flag, and counts.
    pub open spec fn after(self, reading: Reading) -> Function {
        match self.outcome(reading) {
            Outcome::Halted => self,
            Outcome::Failure => Function { is_error: true, ..self },
            Outcome::Advanced(answer) => Function {
                fixed: answer.fixed,
                x2: answer.x2,
                reached_eps: answer.reached_eps,
                current_iteration: (self.current_iteration + 1) as i64,
                ..self
            },
        }
    }

    /// What the caller is to compute for the next step on this problem.
    pub fn request(&self) -> (r: Request)
        ensures
            r == self.wanted(),
    {
        if self.is_halted() {
            Request::Halt
        } else if !self.is_started() {
            Request::Seed { equation: self.current_function, a: self.a, b: self.b }
        } else {
            Request::Chord {
                equation: self.current_function,
                a: self.a,
                b: self.b,
                fixed: self.fixed,
                x1: self.x2,
            }
        }
    }

    /// Takes the next step, unless the run has ended, and commits it.
    pub fn next_iteration(&mut self, reading: &Reading) -> (outcome: Outcome)
        requires
            old(self).current_iteration < i64::MAX,
        ensures
            outcome == old(self).outcome(*reading),
            *final(self) == old(self).after(*reading),
            old(self).halted() ==> *final(self) == *old(self),
            outcome is Failure ==> *final(self) == (Function { is_error: true, ..*old(self) }),
            outcome is Advanced ==> final(self).current_iteration == old(self).current_iteration + 1,
            !(outcome is Advanced) ==> final(self).current_iteration == old(self).current_iteration
                && final(self).x2 == old(self).x2,
            old(self).started() ==> final(self).fixed == old(self).fixed,
            old(self).wf() ==> final(self).wf(),
    {
        if self.is_halted() {
            return Outcome::Halted;
        }
        match get_root_chord_method(self, reading) {
            Some(answer) => {
                self.fixed = answer.fixed;
                self.x2 = answer.x2;
                self.reached_eps = answer.reached_eps;
                self.current_iteration = self.current_iteration + 1;
                Outcome::Advanced(answer)
            },
            None => {
                self.is_error = true;
                Outcome::Failure
            },
        }
    }
}

/// The problem after the steps with these readings, taken in order.
pub open spec fn run(func: Function, readings: Seq<Reading>) -> Function
    decreases readings.len(),
{
    if readings.len() == 0 {
        func
    } else {
        run(func, readings.drop_last()).after(readings.last())
    }
}

/// How many of those steps were accepted.
pub open spec fn accepted(func: Function, readings: Seq<Reading>) -> nat
    decreases readings.len(),
{
    if readings.len() == 0 {
        0
    } else {
        let before = accepted(func, readings.drop_last());
        if run(func, readings.drop_last()).outcome(readings.last()) is Advanced {
            before + 1
        } else {
            before
        }
    }
}

/// The answers of the accepted ones among those steps, in order.
pub open spec fn answers_of(func: Function, readings: Seq<Reading>) -> Seq<Answer>
    decreases readings.len(),
{
    if readings.len() == 0 {
        Seq::empty()
    } else {
        let before = answers_of(func, readings.drop_last());
        match run(func, readings.drop_last()).outcome(readings.last()) {
            Outcome::Advanced(answer) => before.push(answer),
            _ => before,
        }
    }
}

/// The iterates that the problem holds after each of those steps.
pub open spec fn iterates(func: Function, readings: Seq<Reading>) -> Seq<Real> {
    Seq::new(readings.len(), |i: int| run(func, readings.take(i + 1)).x2)
}

/// The readings are those of a run that `measure` fed from `func` on: each is what
/// `measure` returned for the request of the problem as the readings before it had
/// left it, and that problem was still waiting for a step.
pub open spec fn measured<F: Fn(Request) -> Reading>(
    func: Function,
    measure: F,
    readings: Seq<Reading>,
) -> bool {
    forall|i: int|
        0 <= i < readings.len() ==> {
            let at = #[trigger] run(func, readings.take(i));
            &&& !at.halted()
            &&& at.current_iteration < i64::MAX
            &&& call_ensures(measure, (at.wanted(),), readings[i])
        }
}

/// The readings are those of a run that `measure` fed from `func` on and that went
/// as far as `solve` goes: to its end, or to `limit` steps, or to a full count.
pub open spec fn solved<F: Fn(Request) -> Reading>(
    func: Function,
    measure: F,
    limit: nat,
    readings: Seq<Reading>,
) -> bool {
    &&& measured(func, measure, readings)
    &&& readings.len() <= limit
    &&& readings.len() == limit || run(func, readings).halted() || run(
        func,
        readings,
    ).current_iteration == i64::MAX
}

/// Runs the problem to its end: takes step after step, each on the reading that
/// `measure` returns for the problem's request, until the run has converged or
/// failed or holds an iterate that is a NaN or infinite. It gives up after `limit`
/// steps, and where the count can go no higher. Returns the answers of the
/// accepted steps, in order.
pub fn solve<F: Fn(Request) -> Reading>(func: &mut Function, measure: F, limit: u64) -> (answers:
    Vec<Answer>)
    requires
        forall|request: Request| !(request is Halt) ==> call_requires(measure, (request,)),
    ensures
        exists|readings: Seq<Reading>|
            {
                &&& #[trigger] solved(*old(func), measure, limit as nat, readings)
                &&& *final(func) == run(*old(func), readings)
                &&& answers@ == answers_of(*old(func), readings)
            },
        old(func).wf() ==> final(func).wf(),
        old(func).halted() ==> *final(func) == *old(func) && answers@.len() == 0,
{
    let ghost start = *func;
    let ghost mut readings: Seq<Reading> = Seq::empty();
    let mut answers: Vec<Answer> = Vec::new();
    let mut steps: u64 = 0;
    while steps < limit && func.current_iteration < i64::MAX && !func.is_halted()
        invariant
            forall|request: Request| !(request is Halt) ==> call_requires(measure, (request,)),
            steps <= limit,
            readings.len() == steps,
            measured(start, measure, readings),
            *func == run(start, readings),
            answers@ == answers_of(start, readings),
            start.wf() ==> func.wf(),
            start.halted() ==> steps == 0,
        decreases limit - steps,
    {
        let ghost earlier = readings;
        let reading = measure(func.request());
        let outcome = func.next_iteration(&reading);
        if let Outcome::Advanced(answer) = outcome {
            answers.push(answer);
        }
        steps = steps + 1;
        proof {
            readings = earlier.push(reading);
            assert(readings.take(earlier.len() as int) =~= earlier);
            assert forall|i: int| 0 <= i < earlier.len() implies readings.take(i) == earlier.take(
                i,
            ) by {
                assert(readings.take(i) =~= earlier.take(i));
            }
        }
    }
    assert(solved(start, measure, limit as nat, readings));
    answers
}

} // verus!
