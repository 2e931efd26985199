//! The chord method for a root of a real function on a bracket, one step at a time.
//!
//! The method holds one end of the bracket fixed and moves an iterate from the
//! other end towards a root: each step draws the chord from the fixed end's point
//! on the graph to the iterate's and takes the place where the chord meets the
//! axis as the next iterate. The run has converged once a step moves the iterate
//! by no more than the tolerance, and has failed once a step leaves the bracket.
//!
//! Real numbers are binary64 values held by their bit patterns (`number`). The
//! library compares and classifies them, and does no arithmetic on them: the
//! values of the equation and of the chord formula are the caller's to compute.
//! A problem (`problem`) says what it needs for its next step, the caller hands
//! the reading in, and the step (`chord`) decides which end stays fixed, whether
//! the iterate is accepted and whether the run has converged, and gives the lines
//! to draw. `run` commits steps to a problem and solves it by repeated steps;
//! `laws` states what holds of every run. `decimals` reads off a number's
//! decimal form how many decimals to show of it.

pub mod number;
pub mod problem;
pub mod chord;
pub mod run;
pub mod laws;
pub mod decimals;
