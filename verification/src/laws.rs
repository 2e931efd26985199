//! What holds of every run.

use vstd::prelude::*;
use crate::number::Real;
use crate::problem::{Endpoint, Function, Phase};
use crate::chord::{Answer, Point, Reading, chord_step, drop_of};
use crate::run::{Outcome, Request, accepted, answers_of, iterates, measured, run, solved};

verus! {

/// A NaN is on neither side of anything, so it is never outside a bracket, and a
/// step that proposes one is accepted.
pub proof fn nan_iterate_is_accepted(func: Function, reading: Reading)
    requires
        func.started(),
        reading.x2.nan(),
    ensures
        chord_step(func, reading) matches Some(answer) && answer.x2 == reading.x2,
{
}

/// The first step fixes the left end exactly where `f(a) * f''(a) > 0`, and moves
/// the iterate to the other end.
pub proof fn first_step_follows_sign(func: Function, reading: Reading)
    requires
        !func.started(),
        func.outcome(reading) is Advanced,
    ensures
        func.after(reading).fixed == Endpoint::Left <==> reading.sign.positive(),
        func.after(reading).x2 == func.end(func.after(reading).fixed.opposite()),
        func.after(reading).started(),
        !func.after(reading).reached_eps,
{
}

/// A step taken on a run that has converged or failed changes nothing.
pub proof fn ended_run_ignores_step(func: Function, reading: Reading)
    requires
        func.phase() == Phase::Converged || func.phase() == Phase::Failed,
    ensures
        func.after(reading) == func,
{
}

/// A run that has ended stays as it is, whatever steps follow.
pub proof fn halted_is_absorbing(func: Function, readings: Seq<Reading>)
    requires
        func.halted(),
    ensures
        run(func, readings) == func,
    decreases readings.len(),
{
    if readings.len() > 0 {
        halted_is_absorbing(func, readings.drop_last());
    }
}

/// A step moves a run forward only. A step that is not taken leaves the run where
/// it is, one that fails makes it failed, and an accepted one makes it converged or
/// running, as the answer says. No step is taken on a run that has converged or
/// failed, and the first step never converges.
pub proof fn phase_moves_forward(func: Function, reading: Reading)
    requires
        func.wf(),
        func.current_iteration < i64::MAX,
    ensures
        func.after(reading).wf(),
        func.after(reading).phase() == match func.outcome(reading) {
            Outcome::Halted => func.phase(),
            Outcome::Failure => Phase::Failed,
            Outcome::Advanced(answer) => if answer.reached_eps {
                Phase::Converged
            } else {
                Phase::Running
            },
        },
        func.phase() == Phase::Converged || func.phase() == Phase::Failed ==> func.outcome(
            reading,
        ) is Halted,
        func.phase() == Phase::NotStarted ==> func.after(reading).phase() != Phase::Converged,
{
}

/// Through a whole run the problem stays well formed, its bracket, tolerance and
/// equation stay what they were, and its count goes up by one with each accepted
/// step and with no other: it never goes down.
pub proof fn count_follows_accepted_steps(func: Function, readings: Seq<Reading>)
    requires
        func.wf(),
        func.current_iteration + readings.len() <= i64::MAX,
    ensures
        run(func, readings).wf(),
        run(func, readings).a == func.a,
        run(func, readings).b == func.b,
        run(func, readings).eps == func.eps,
        run(func, readings).current_function == func.current_function,
        run(func, readings).current_iteration == func.current_iteration + accepted(func, readings),
        accepted(func, readings) <= readings.len(),
    decreases readings.len(),
{
    if readings.len() > 0 {
        count_follows_accepted_steps(func, readings.drop_last());
    }
}

/// The answer is drawn for the problem: its chord starts at the fixed end and ends
/// at the new iterate's point on the graph, its drop leads from there to the axis,
/// and the iterate is not outside the bracket.
pub open spec fn drawn_for(func: Function, answer: Answer) -> bool {
    &&& answer.chord.from.x == func.end(answer.fixed)
    &&& answer.chord.to == (Point { x: answer.x2, y: answer.f_x2 })
    &&& answer.drop == drop_of(answer.x2, answer.f_x2)
    &&& !func.outside(answer.x2)
}

/// Every answer of a run is drawn for its problem, there are as many answers as
/// the count went up, and the last of them holds what the problem holds after the
/// run: its iterate, its fixed end, and whether it has converged.
pub proof fn answers_tell_the_run(func: Function, readings: Seq<Reading>)
    requires
        func.wf(),
        func.current_iteration + readings.len() <= i64::MAX,
    ensures
        answers_of(func, readings).len() == accepted(func, readings),
        forall|i: int|
            0 <= i < answers_of(func, readings).len() ==> drawn_for(
                func,
                #[trigger] answers_of(func, readings)[i],
            ),
        accepted(func, readings) > 0 ==> {
            let last = answers_of(func, readings).last();
            &&& run(func, readings).x2 == last.x2
            &&& run(func, readings).fixed == last.fixed
            &&& run(func, readings).reached_eps == last.reached_eps
        },
    decreases readings.len(),
{
    if readings.len() > 0 {
        answers_tell_the_run(func, readings.drop_last());
        count_follows_accepted_steps(func, readings.drop_last());
    }
}

/// Once a run has started, its fixed end is the same after every further step.
pub proof fn fixed_end_is_kept(func: Function, readings: Seq<Reading>)
    requires
        func.wf(),
        func.started(),
        func.current_iteration + readings.len() <= i64::MAX,
    ensures
        run(func, readings).started(),
        run(func, readings).fixed == func.fixed,
    decreases readings.len(),
{
    if readings.len() > 0 {
        fixed_end_is_kept(func, readings.drop_last());
        count_follows_accepted_steps(func, readings.drop_last());
    }
}

/// A run that has taken a step and still has not started never will.
proof fn unstarted_run_has_ended(func: Function, readings: Seq<Reading>)
    requires
        func.wf(),
        !func.started(),
        readings.len() > 0,
        func.current_iteration + readings.len() <= i64::MAX,
        !run(func, readings).started(),
    ensures
        run(func, readings).halted(),
    decreases readings.len(),
{
    let earlier = readings.drop_last();
    count_follows_accepted_steps(func, earlier);
    if earlier.len() > 0 {
        if run(func, earlier).started() {
            fixed_end_is_kept(run(func, earlier), seq![readings.last()]);
        } else {
            unstarted_run_has_ended(func, earlier);
        }
    }
}

/// The fixed end of a run is decided by the sign that its first step read, once:
/// however many steps follow, and whatever signs they read, a run that has started
/// holds the left end fixed exactly where that first sign was positive.
pub proof fn fixed_end_is_decided_once(func: Function, readings: Seq<Reading>)
    requires
        func.wf(),
        !func.started(),
        readings.len() > 0,
        func.current_iteration + readings.len() <= i64::MAX,
        run(func, readings).started(),
    ensures
        run(func, readings).fixed == Endpoint::Left <==> readings[0].sign.positive(),
    decreases readings.len(),
{
    let earlier = readings.drop_last();
    if earlier.len() > 0 {
        count_follows_accepted_steps(func, earlier);
        if run(func, earlier).started() {
            fixed_end_is_decided_once(func, earlier);
        } else {
            unstarted_run_has_ended(func, earlier);
        }
    }
}

/// A reset forgets the run so far: two problems for one equation, whatever steps
/// each has taken, go through the same states and the same iterates once both are
/// reset to the same bounds and given the same readings.
pub proof fn reset_forgets_the_past(
    one: Function,
    other: Function,
    left: Real,
    right: Real,
    precision: Real,
    readings: Seq<Reading>,
)
    requires
        one.current_function == other.current_function,
    ensures
        run(one.restarted(left, right, precision), readings) == run(
            other.restarted(left, right, precision),
            readings,
        ),
        iterates(one.restarted(left, right, precision), readings) == iterates(
            other.restarted(left, right, precision),
            readings,
        ),
{
}

/// `measure` is a function: it returns the same reading whenever it is given the
/// same request.
pub open spec fn repeatable<F: Fn(Request) -> Reading>(measure: F) -> bool {
    forall|request: Request, one: Reading, other: Reading|
        call_ensures(measure, (request,), one) && call_ensures(measure, (request,), other) ==> one
            == other
}

/// Two runs that a repeatable `measure` fed from the same problem on read the same
/// as far as both go.
proof fn measured_runs_share_their_start<F: Fn(Request) -> Reading>(
    func: Function,
    measure: F,
    one: Seq<Reading>,
    other: Seq<Reading>,
    n: int,
)
    requires
        repeatable(measure),
        measured(func, measure, one),
        measured(func, measure, other),
        0 <= n <= one.len(),
        n <= other.len(),
    ensures
        one.take(n) == other.take(n),
    decreases n,
{
    if n == 0 {
        assert(one.take(0) =~= other.take(0));
    } else {
        measured_runs_share_their_start(func, measure, one, other, n - 1);
        let at = run(func, one.take(n - 1));
        assert(call_ensures(measure, (at.wanted(),), one[n - 1]));
        assert(run(func, other.take(n - 1)) == at);
        assert(call_ensures(measure, (at.wanted(),), other[n - 1]));
        assert(one.take(n) =~= one.take(n - 1).push(one[n - 1]));
        assert(other.take(n) =~= other.take(n - 1).push(other[n - 1]));
    }
}

/// With a repeatable `measure`, solving is repeatable: whatever `solve` may have
/// read on a problem with a limit, it reads again, so it ends in the same state
/// and returns the same answers.
pub proof fn solve_is_repeatable<F: Fn(Request) -> Reading>(
    func: Function,
    measure: F,
    limit: nat,
    one: Seq<Reading>,
    other: Seq<Reading>,
)
    requires
        repeatable(measure),
        solved(func, measure, limit, one),
        solved(func, measure, limit, other),
    ensures
        one == other,
        run(func, one) == run(func, other),
        answers_of(func, one) == answers_of(func, other),
        iterates(func, one) == iterates(func, other),
{
    if one.len() <= other.len() {
        measured_runs_share_their_start(func, measure, one, other, one.len() as int);
        assert(one.take(one.len() as int) =~= one);
        assert(other.take(other.len() as int) =~= other);
    } else {
        measured_runs_share_their_start(func, measure, one, other, other.len() as int);
        assert(other.take(other.len() as int) =~= other);
        assert(one.take(one.len() as int) =~= one);
    }
}

/// Solving again after a reset to the same bounds repeats the run: two problems
/// for one equation, whatever steps each has taken before, are solved alike once
/// both are reset to the same bounds and fed by the same repeatable `measure`.
pub proof fn solve_after_reset_is_repeatable<F: Fn(Request) -> Reading>(
    first: Function,
    second: Function,
    left: Real,
    right: Real,
    precision: Real,
    measure: F,
    limit: nat,
    one: Seq<Reading>,
    other: Seq<Reading>,
)
    requires
        first.current_function == second.current_function,
        repeatable(measure),
        solved(first.restarted(left, right, precision), measure, limit, one),
        solved(second.restarted(left, right, precision), measure, limit, other),
    ensures
        one == other,
        run(first.restarted(left, right, precision), one) == run(
            second.restarted(left, right, precision),
            other,
        ),
        answers_of(first.restarted(left, right, precision), one) == answers_of(
            second.restarted(left, right, precision),
            other,
        ),
        iterates(first.restarted(left, right, precision), one) == iterates(
            second.restarted(left, right, precision),
            other,
        ),
{
    solve_is_repeatable(first.restarted(left, right, precision), measure, limit, one, other);
}

} // verus!
