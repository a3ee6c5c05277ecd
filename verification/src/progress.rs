use vstd::prelude::*;

verus! {

/// The persisted record of exercises activated so far, in activation order.
/// Its length is the sole measure of progress. Entries are appended one at a
/// time by the progression controller — the record's only writer — and are
/// never pruned or reordered.
pub struct ProgressRecord {
    entries: Vec<String>,
}

impl View for ProgressRecord {
    type V = Seq<Seq<char>>;

    closed spec fn view(&self) -> Seq<Seq<char>> {
        self.entries.deep_view()
    }
}

impl ProgressRecord {
    /// The empty record, as created on a learner's first run.
    pub fn new() -> (r: ProgressRecord)
        ensures
            r@ == Seq::<Seq<char>>::empty(),
    {
        ProgressRecord { entries: Vec::new() }
    }

    /// Rebuilds a record from the entries persisted by earlier runs.
    pub fn from_entries(entries: Vec<String>) -> (r: ProgressRecord)
        ensures
            r@ == entries.deep_view(),
    {
        ProgressRecord { entries }
    }

    /// How many exercises have been activated. Never negative, and the only
    /// signal the controller consumes.
    pub fn count(&self) -> (n: usize)
        ensures
            n == self@.len(),
    {
        self.entries.len()
    }

    /// The identifier recorded at position `i`, in activation order.
    pub fn entry(&self, i: usize) -> (id: &String)
        requires
            i < self@.len(),
        ensures
            id@ == self@[i as int],
    {
        &self.entries[i]
    }

    /// Records that `id` has been activated, as the next entry after all
    /// previous ones. Crate-private: the progression controller is the
    /// record's only writer.
    pub(crate) fn append(&mut self, id: String)
        ensures
            final(self)@ == old(self)@.push(id@),
    {
        let ghost before = self@;
        let ghost added = id@;
        self.entries.push(id);
        proof {
            assert(self@ =~= before.push(added));
        }
    }
}

} // verus!
