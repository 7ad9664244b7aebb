//! Decisions of the flood-routing computation that do not depend on the
//! arithmetic of the water balance itself.
use vstd::prelude::*;

verus! {

#[verifier::external_type_specification]
#[verifier::external_body]
pub struct ExSearchError(roots::SearchError);

/// What can go wrong during the routing.
#[derive(Debug)]
pub enum RoutingError {
    /// The root finder gave up.
    CanNotResolveRoot(roots::SearchError),
    /// The trial computation of a single time step failed.
    StepCalculationFailed,
    /// No pair of neighbouring steps encloses the instant at which inflow
    /// equals outflow.
    NoExactSolutionRange,
}

/// Finds the window of neighbouring steps that encloses the instant at which
/// the reservoir stops filling: the first window, scanning from the start,
/// over which the storage change changes sign. `changes_sign[i]` describes
/// the window `(i, i + 1)`.
pub fn find_exact_solution_range(changes_sign: &[bool]) -> (res: Result<(usize, usize), RoutingError>)
    ensures
        match res {
            Ok((left, right)) => {
                &&& right == left + 1
                &&& left < changes_sign@.len()
                &&& changes_sign@[left as int]
                &&& forall|j: int| 0 <= j < left ==> !changes_sign@[j]
            },
            Err(e) => {
                &&& e is NoExactSolutionRange
                &&& forall|j: int| 0 <= j < changes_sign@.len() ==> !changes_sign@[j]
            },
        },
{
    let mut idx: usize = 0;
    while idx < changes_sign.len()
        invariant
            idx <= changes_sign@.len(),
            forall|j: int| 0 <= j < idx ==> !changes_sign@[j],
        decreases changes_sign@.len() - idx,
    {
        if changes_sign[idx] {
            return Ok((idx, idx + 1));
        }
        idx += 1;
    }
    Err(RoutingError::NoExactSolutionRange)
}

} // verus!
