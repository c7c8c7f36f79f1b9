//! Decision logic of the escape-time evaluator.
//!
//! The evaluator repeatedly applies `z <- z * z + c` and counts the steps
//! taken before the magnitude of `z` reaches the escape radius, giving up
//! once a fixed iteration budget is exhausted.  The complex arithmetic and
//! the magnitude comparison are floating-point work done by the caller; what
//! is decided from each comparison — keep going, report an escape with the
//! current count, or report that the budget ran out — is verified here.
//!
//! The caller runs the loop: it computes `below_radius = |z| < escape_radius`
//! for the current `z`, asks [`iteration_step`] what to do, and performs one
//! more squaring step only when told to continue.

use vstd::prelude::*;

verus! {

/// Result of evaluating one point: either the point's magnitude reached the
/// escape radius after the given number of steps, or the iteration budget ran
/// out first.
#[derive(Clone, Copy, Debug, PartialEq, Eq, Structural)]
pub enum IterationOutcome {
    Escaped(usize),
    DidNotEscape,
}

/// One decision of the evaluator loop: take another squaring step, carrying
/// the new count, or stop with a final outcome.
#[derive(Clone, Copy, Debug, PartialEq, Eq, Structural)]
pub enum IterationStatus {
    Continue(usize),
    Finished(IterationOutcome),
}

/// What the evaluator decides when the current point's magnitude compares to
/// the escape radius as `below_radius`, `count` squaring steps have been taken
/// so far, and at most `max_iterations` steps are allowed in total.
pub open spec fn step_decision(below_radius: bool, count: usize, max_iterations: usize) -> IterationStatus {
    if !below_radius {
        IterationStatus::Finished(IterationOutcome::Escaped(count))
    } else if count >= max_iterations {
        IterationStatus::Finished(IterationOutcome::DidNotEscape)
    } else {
        IterationStatus::Continue((count + 1) as usize)
    }
}

/// One turn of the evaluator loop.
///
/// A point at or beyond the escape radius escapes at once with the current
/// count; a point still inside the radius takes another step while budget
/// remains, and is reported as `DidNotEscape` once it has none.
pub fn iteration_step(below_radius: bool, count: usize, max_iterations: usize) -> (status: IterationStatus)
    ensures
        status == step_decision(below_radius, count, max_iterations),
{
    if !below_radius {
        IterationStatus::Finished(IterationOutcome::Escaped(count))
    } else if count >= max_iterations {
        IterationStatus::Finished(IterationOutcome::DidNotEscape)
    } else {
        IterationStatus::Continue(count + 1)
    }
}

/// A point whose magnitude is already at or beyond the escape radius before
/// any step is taken escapes immediately, with a count of zero.
pub proof fn lemma_immediate_escape(max_iterations: usize)
    ensures
        step_decision(false, 0, max_iterations) == IterationStatus::Finished(
            IterationOutcome::Escaped(0),
        ),
{
}

/// A point that never reaches the escape radius is never reported as escaped:
/// while its magnitude stays below the radius, no decision yields `Escaped`,
/// and once the step count reaches the budget the outcome is `DidNotEscape`.
pub proof fn lemma_budget_exhaustion(count: usize, max_iterations: usize)
    ensures
        !(step_decision(true, count, max_iterations) matches IterationStatus::Finished(
            IterationOutcome::Escaped(_),
        )),
        count >= max_iterations ==> step_decision(true, count, max_iterations)
            == IterationStatus::Finished(IterationOutcome::DidNotEscape),
{
}

} // verus!
