//! The rule that every stage of discovery follows: candidates are probed in
//! a fixed order, and the first one that is not rejected decides.
use vstd::prelude::*;
use crate::error::{Error, Stage};

verus! {

/// What probing one candidate gave.
pub enum Probe<T> {
    /// The candidate is not what the stage looks for; the scan goes on.
    Reject,
    /// The candidate is accepted; the scan ends with it.
    Accept(T),
    /// The probe failed in a way that ends the scan.
    Fail(Error),
}

impl<T> Probe<T> {
    /// What two checks of one candidate give together, this one made
    /// first: where this one accepts, what `next` gives, and else what
    /// this one gives.
    pub open spec fn followed_by<U>(self, next: Probe<U>) -> Probe<U> {
        match self {
            Probe::Accept(_) => next,
            Probe::Reject => Probe::Reject,
            Probe::Fail(e) => Probe::Fail(e),
        }
    }
}

/// The result of a scan that has reached candidate `from`.
pub open spec fn scan_from<T>(outcomes: Seq<Probe<T>>, from: int, stage: Stage) -> Result<
    T,
    Error,
>
    decreases outcomes.len() - from,
{
    if from < 0 || from >= outcomes.len() {
        Err(Error::DiscoveryFailed(stage))
    } else {
        match outcomes[from] {
            Probe::Reject => scan_from(outcomes, from + 1, stage),
            Probe::Accept(found) => Ok(found),
            Probe::Fail(e) => Err(e),
        }
    }
}

/// The result of a scan over all candidates.
pub open spec fn scan<T>(outcomes: Seq<Probe<T>>, stage: Stage) -> Result<T, Error> {
    scan_from(outcomes, 0, stage)
}

/// Whether candidate `index` is the first from `from` on that is not
/// rejected.
pub open spec fn decides<T>(outcomes: Seq<Probe<T>>, from: int, index: int) -> bool {
    &&& 0 <= from <= index < outcomes.len()
    &&& !(outcomes[index] is Reject)
    &&& forall|j: int| from <= j < index ==> outcomes[j] is Reject
}

/// A scan gives what its first candidate that is not rejected gives.
pub proof fn lemma_scan_decided<T>(outcomes: Seq<Probe<T>>, from: int, index: int, stage: Stage)
    requires
        decides(outcomes, from, index),
    ensures
        scan_from(outcomes, from, stage) == match outcomes[index] {
            Probe::Accept(found) => Ok::<T, Error>(found),
            Probe::Fail(e) => Err(e),
            Probe::Reject => Err(Error::DiscoveryFailed(stage)),
        },
    decreases index - from,
{
    if from < index {
        assert(outcomes[from] is Reject);
        lemma_scan_decided(outcomes, from + 1, index, stage);
    }
}

/// A scan that rejects every candidate fails with the stage's error.
pub proof fn lemma_scan_exhausted<T>(outcomes: Seq<Probe<T>>, from: int, stage: Stage)
    requires
        0 <= from,
        forall|j: int| from <= j < outcomes.len() ==> outcomes[j] is Reject,
    ensures
        scan_from(outcomes, from, stage) == Err::<T, Error>(Error::DiscoveryFailed(stage)),
    decreases outcomes.len() - from,
{
    if from < outcomes.len() {
        assert(outcomes[from] is Reject);
        lemma_scan_exhausted(outcomes, from + 1, stage);
    }
}

/// A scan that does not reject every candidate is decided by one of them.
pub proof fn lemma_scan_has_decider<T>(outcomes: Seq<Probe<T>>, from: int) -> (index: int)
    requires
        0 <= from,
        exists|j: int| from <= j < outcomes.len() && !(outcomes[j] is Reject),
    ensures
        decides(outcomes, from, index),
    decreases outcomes.len() - from,
{
    let witness = choose|j: int| from <= j < outcomes.len() && !(outcomes[j] is Reject);
    if outcomes[from] is Reject {
        assert(from + 1 <= witness);
        let index = lemma_scan_has_decider(outcomes, from + 1);
        assert forall|j: int| from <= j < index implies outcomes[j] is Reject by {
            if j > from {
            }
        }
        index
    } else {
        from
    }
}

/// A scan succeeds with `found` exactly when some candidate is accepted
/// with `found` and every candidate before it is rejected.
pub proof fn lemma_scan_success<T>(outcomes: Seq<Probe<T>>, stage: Stage, found: T)
    ensures
        scan(outcomes, stage) == Ok::<T, Error>(found) <==> exists|i: int|
            decides(outcomes, 0, i) && outcomes[i] == Probe::Accept(found),
{
    if exists|j: int| 0 <= j < outcomes.len() && !(outcomes[j] is Reject) {
        let index = lemma_scan_has_decider(outcomes, 0);
        lemma_scan_decided(outcomes, 0, index, stage);
        if scan(outcomes, stage) == Ok::<T, Error>(found) {
            assert(decides(outcomes, 0, index) && outcomes[index] == Probe::Accept(found));
        }
        assert forall|i: int|
            decides(outcomes, 0, i) && outcomes[i] == Probe::Accept(found) implies scan(
            outcomes,
            stage,
        ) == Ok::<T, Error>(found) by {
            lemma_scan_decided(outcomes, 0, i, stage);
        }
    } else {
        lemma_scan_exhausted(outcomes, 0, stage);
    }
}

} // verus!
