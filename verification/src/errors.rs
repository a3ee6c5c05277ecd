use vstd::prelude::*;

verus! {

/// The unrecoverable setup errors of the engine. Each one means a broken
/// installation, not a transient condition: the engine aborts and surfaces
/// the error; there is no retry. A failing test run is *not* an error — it is
/// a normal `false` harness result.
#[derive(Clone, Copy, Debug, PartialEq, Eq, Structural)]
pub enum EngineError {
    /// The exercise catalog manifest cannot be read. Fatal: without a catalog
    /// no exercise can be identified.
    CatalogUnavailable,
    /// The persisted progress record cannot be opened for read or append.
    StoreUnavailable,
    /// The external test command cannot be launched at all (as opposed to
    /// launching and reporting failure).
    HarnessUnavailable,
}

/// What `EngineError::describe` returns for each variant.
pub open spec fn spec_describe(e: EngineError) -> Seq<char> {
    match e {
        EngineError::CatalogUnavailable => "The catalog of koans cannot be read."@,
        EngineError::StoreUnavailable => "The record of your progress cannot be opened."@,
        EngineError::HarnessUnavailable => "The test harness cannot be launched."@,
    }
}

impl EngineError {
    /// The message surfaced to the learner when the engine aborts.
    pub fn describe(&self) -> (msg: &'static str)
        ensures
            msg@ == spec_describe(*self),
    {
        match self {
            EngineError::CatalogUnavailable => "The catalog of koans cannot be read.",
            EngineError::StoreUnavailable => "The record of your progress cannot be opened.",
            EngineError::HarnessUnavailable => "The test harness cannot be launched.",
        }
    }
}

} // verus!
