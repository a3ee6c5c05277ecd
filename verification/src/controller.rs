use vstd::prelude::*;
use vstd::seq_lib::*;
use crate::catalog::Catalog;
use crate::progress::ProgressRecord;

verus! {

/// The controller's two states. It is `Advancing` while at least one catalog
/// entry has not been activated, and `Complete` once every entry has been.
/// `Complete` is terminal: no transition leaves it.
#[derive(Clone, Copy, Debug, PartialEq, Eq, Structural)]
pub enum Phase {
    Advancing,
    Complete,
}

/// The controller's state, read off the catalog and the progress record. A
/// record longer than the catalog (the catalog shrank between runs) counts as
/// `Complete` by policy, never as an error.
pub open spec fn spec_phase(catalog: Seq<Seq<char>>, record: Seq<Seq<char>>) -> Phase {
    if record.len() < catalog.len() {
        Phase::Advancing
    } else {
        Phase::Complete
    }
}

/// The progress record after one invocation of the controller: while
/// advancing, the next unactivated catalog entry is appended; once complete,
/// the record is left untouched.
pub open spec fn spec_next_record(catalog: Seq<Seq<char>>, record: Seq<Seq<char>>) -> Seq<
    Seq<char>,
> {
    if record.len() < catalog.len() {
        record.push(catalog[record.len() as int])
    } else {
        record
    }
}

/// The progress record after `n` invocations of the controller against a
/// fixed catalog.
pub open spec fn spec_record_after_runs(
    catalog: Seq<Seq<char>>,
    record: Seq<Seq<char>>,
    n: nat,
) -> Seq<Seq<char>>
    decreases n,
{
    if n == 0 {
        record
    } else {
        spec_next_record(catalog, spec_record_after_runs(catalog, record, (n - 1) as nat))
    }
}

impl Phase {
    /// Which state the controller is in for the given catalog and record.
    pub fn of(catalog: &Catalog, record: &ProgressRecord) -> (p: Phase)
        ensures
            p == spec_phase(catalog@, record@),
    {
        if record.count() < catalog.len() {
            Phase::Advancing
        } else {
            Phase::Complete
        }
    }
}

/// One invocation of the progression controller. With `n` exercises already
/// activated: if `n` is under the catalog's length, the controller activates
/// exactly the catalog entry at position `n`, appends it to the record, and
/// returns it; otherwise it is complete, returns nothing, and leaves the
/// record untouched — also when the record is *longer* than the catalog,
/// which a shrunken catalog makes possible.
pub fn advance(catalog: &Catalog, record: &mut ProgressRecord) -> (activated: Option<String>)
    ensures
        final(record)@ == spec_next_record(catalog@, old(record)@),
        activated is Some <==> spec_phase(catalog@, old(record)@) is Advancing,
        activated is Some ==> activated->0@ == catalog@[old(record)@.len() as int],
        activated is None ==> final(record)@ == old(record)@,
{
    let n = record.count();
    if n < catalog.len() {
        let next = catalog.entry(n).clone();
        record.append(next.clone());
        Some(next)
    } else {
        None
    }
}

/// Once complete, one more invocation changes nothing and the controller
/// stays complete.
pub proof fn lemma_complete_is_terminal(catalog: Seq<Seq<char>>, record: Seq<Seq<char>>)
    requires
        spec_phase(catalog, record) is Complete,
    ensures
        spec_next_record(catalog, record) == record,
        spec_phase(catalog, spec_next_record(catalog, record)) is Complete,
{
}

/// Idempotence of completion: once every catalog entry is activated, any
/// number of further invocations leaves the progress record unchanged.
pub proof fn lemma_complete_is_idempotent(
    catalog: Seq<Seq<char>>,
    record: Seq<Seq<char>>,
    n: nat,
)
    requires
        spec_phase(catalog, record) is Complete,
    ensures
        spec_record_after_runs(catalog, record, n) == record,
    decreases n,
{
    if n > 0 {
        lemma_complete_is_idempotent(catalog, record, (n - 1) as nat);
    }
}

/// Monotonicity of one invocation: the record never shrinks, grows by at
/// most one entry, keeps all existing entries in place, and — when it does
/// grow — the new entry is the catalog entry at the old length, so no index
/// is ever skipped.
pub proof fn lemma_advance_is_monotonic(catalog: Seq<Seq<char>>, record: Seq<Seq<char>>)
    ensures
        record.len() <= spec_next_record(catalog, record).len() <= record.len() + 1,
        record.is_prefix_of(spec_next_record(catalog, record)),
        spec_next_record(catalog, record).len() > record.len() ==> spec_next_record(
            catalog,
            record,
        )[record.len() as int] == catalog[record.len() as int],
{
    if record.len() < catalog.len() {
        assert(record =~= spec_next_record(catalog, record).take(record.len() as int));
    } else {
        assert(record =~= spec_next_record(catalog, record).take(record.len() as int));
    }
}

/// Monotonicity across any sequence of invocations: the record's length
/// never decreases, the earlier record always stays a prefix of the later
/// one, and every entry beyond the earlier length is the catalog entry of
/// its own index — progression never skips an index.
pub proof fn lemma_runs_are_monotonic(catalog: Seq<Seq<char>>, record: Seq<Seq<char>>, n: nat)
    ensures
        record.len() <= spec_record_after_runs(catalog, record, n).len(),
        record.is_prefix_of(spec_record_after_runs(catalog, record, n)),
        forall|i: int|
            record.len() <= i < spec_record_after_runs(catalog, record, n).len() ==> #[trigger] spec_record_after_runs(
                catalog,
                record,
                n,
            )[i] == catalog[i],
    decreases n,
{
    if n == 0 {
        assert(record =~= spec_record_after_runs(catalog, record, 0).take(record.len() as int));
    } else {
        let prev = spec_record_after_runs(catalog, record, (n - 1) as nat);
        lemma_runs_are_monotonic(catalog, record, (n - 1) as nat);
        lemma_advance_is_monotonic(catalog, prev);
        let cur = spec_record_after_runs(catalog, record, n);
        assert(record =~= cur.take(record.len() as int));
    }
}

/// The record's standing invariant: it is always a prefix of the catalog —
/// it never holds an identifier that is not the next unprocessed one and
/// never skips ahead — and one invocation of the controller preserves it.
/// The empty record of a first run satisfies it trivially.
pub proof fn lemma_advance_preserves_prefix(catalog: Seq<Seq<char>>, record: Seq<Seq<char>>)
    requires
        record.is_prefix_of(catalog),
    ensures
        spec_next_record(catalog, record).is_prefix_of(catalog),
{
    let next = spec_next_record(catalog, record);
    assert(next =~= catalog.take(next.len() as int));
}

} // verus!
