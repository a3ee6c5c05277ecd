use vstd::prelude::*;
use crate::catalog::Catalog;
use crate::controller;
use crate::progress::ProgressRecord;

verus! {

/// The message chosen for the learner from one run's two booleans. A failing
/// harness always wins; a succeeding harness distinguishes a path that goes
/// on from one that is finished.
pub open spec fn spec_message(harness_ok: bool, activated: bool) -> Seq<char> {
    if !harness_ok {
        "Meditate on your approach and return. Mountains are merely mountains."@
    } else if activated {
        "Eternity lies ahead of us, and behind. Your path is not yet finished."@
    } else {
        "What is the sound of one hand clapping (for you)?"@
    }
}

/// The transient result of one run: whether the harness passed, whether a new
/// exercise was activated, and — if one was — its identifier. Computed fresh
/// each run, never persisted.
pub struct RunOutcome {
    /// Whether every currently activated exercise passed the harness.
    pub harness_ok: bool,
    /// Whether this run activated a new exercise.
    pub activated: bool,
    /// The identifier of the newly activated exercise, if any.
    pub next: Option<String>,
}

impl RunOutcome {
    /// The user-facing message for this run, by the decision table: harness
    /// success with a new activation means the path goes on; harness success
    /// with nothing left to activate means the path is finished; harness
    /// failure means meditation, whatever the activation result.
    pub fn message(&self) -> (msg: &'static str)
        ensures
            msg@ == spec_message(self.harness_ok, self.activated),
    {
        if !self.harness_ok {
            "Meditate on your approach and return. Mountains are merely mountains."
        } else if self.activated {
            "Eternity lies ahead of us, and behind. Your path is not yet finished."
        } else {
            "What is the sound of one hand clapping (for you)?"
        }
    }
}

/// One full progression cycle, after the harness has run: the controller
/// activates at most one further exercise — regardless of this run's harness
/// result, since the harness reflects only *previous* activations — and the
/// outcome combines the harness result with the activation result.
pub fn run_cycle(catalog: &Catalog, record: &mut ProgressRecord, harness_ok: bool) -> (outcome:
    RunOutcome)
    ensures
        final(record)@ == controller::spec_next_record(catalog@, old(record)@),
        outcome.harness_ok == harness_ok,
        outcome.activated <==> controller::spec_phase(catalog@, old(record)@) is Advancing,
        outcome.next is Some <==> outcome.activated,
        outcome.activated ==> outcome.next->0@ == catalog@[old(record)@.len() as int],
{
    let next = controller::advance(catalog, record);
    let activated = next.is_some();
    RunOutcome { harness_ok, activated, next }
}

} // verus!
