use vstd::hash_set::StringHashSet;
use vstd::prelude::*;

verus! {

/// The identifiers of the bubbles that were popped: dropped because a size
/// bound was broken, whatever their depth.
pub struct PoppedSet {
    ids: StringHashSet,
}

impl View for PoppedSet {
    type V = Set<Seq<char>>;

    closed spec fn view(&self) -> Set<Seq<char>> {
        self.ids@
    }
}

impl PoppedSet {
    /// A set without any identifier.
    pub fn new() -> (s: PoppedSet)
        ensures
            s@ == Set::<Seq<char>>::empty(),
    {
        PoppedSet { ids: StringHashSet::new() }
    }

    /// Adds an identifier, and says whether it was new.
    pub fn insert(&mut self, id: String) -> (fresh: bool)
        ensures
            final(self)@ == old(self)@.insert(id@),
            fresh == !old(self)@.contains(id@),
    {
        self.ids.insert(id)
    }

    /// Whether the bubble with this identifier was popped.
    pub fn contains(&self, id: &str) -> (found: bool)
        ensures
            found == self@.contains(id@),
    {
        self.ids.contains(id)
    }

    /// The number of identifiers in the set.
    pub fn len(&self) -> (n: usize)
        ensures
            n == self@.len(),
    {
        self.ids.len()
    }

    /// Whether no bubble was popped.
    pub fn is_empty(&self) -> (empty: bool)
        ensures
            empty == self@.is_empty(),
    {
        self.ids.is_empty()
    }
}

} // verus!
