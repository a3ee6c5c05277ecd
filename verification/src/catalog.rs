use vstd::prelude::*;

verus! {

/// The ordered catalog of exercise identifiers, read once per run and
/// immutable for the run's duration. The order is significant and fixed: it
/// defines the required completion sequence. The engine never interprets an
/// identifier's text; it only hands identifiers through.
pub struct Catalog {
    entries: Vec<String>,
}

impl View for Catalog {
    type V = Seq<Seq<char>>;

    closed spec fn view(&self) -> Seq<Seq<char>> {
        self.entries.deep_view()
    }
}

impl Catalog {
    /// Builds the catalog from its identifiers, kept in the given order.
    pub fn new(entries: Vec<String>) -> (c: Catalog)
        ensures
            c@ == entries.deep_view(),
    {
        Catalog { entries }
    }

    /// How many exercises the catalog holds.
    pub fn len(&self) -> (n: usize)
        ensures
            n == self@.len(),
    {
        self.entries.len()
    }

    /// The identifier at position `i` of the completion sequence.
    pub fn entry(&self, i: usize) -> (id: &String)
        requires
            i < self@.len(),
        ensures
            id@ == self@[i as int],
    {
        &self.entries[i]
    }
}

} // verus!
