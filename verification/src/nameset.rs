//! The exclusion set handed to the dependency analyzer: the identifier names
//! that an enclosing callable binds locally, which must never be taken for
//! reactive roots.
//!
//! The set is backed by `hashbrown::HashSet<String>`; the analysis only ever
//! inserts names and tests membership, so its contents are exposed to
//! contracts as an abstract `Set<Seq<char>>`.

use vstd::prelude::*;

verus! {

/// A set of identifier names, excluded from reactive-root tracking.
#[verifier::external_body]
pub struct NameSet {
    set: hashbrown::HashSet<String>,
}

/// The names a [`NameSet`] holds, as a mathematical set of character
/// sequences.
pub uninterp spec fn name_set_contents(s: NameSet) -> Set<Seq<char>>;

impl NameSet {
    /// Relies on `hashbrown::HashSet::new`: the new set is empty.
    #[verifier::external_body]
    pub fn new() -> (s: NameSet)
        ensures
            name_set_contents(s) == Set::<Seq<char>>::empty(),
    {
        NameSet { set: hashbrown::HashSet::new() }
    }

    /// Relies on `hashbrown::HashSet::insert`: afterwards the set holds the
    /// given value together with everything it held before.
    #[verifier::external_body]
    pub fn insert(&mut self, name: &str)
        ensures
            name_set_contents(*final(self)) == name_set_contents(*old(self)).insert(name@),
    {
        self.set.insert(name.to_string());
    }

    /// Relies on `hashbrown::HashSet::contains`: true exactly when an equal
    /// value was inserted; `String` equality is character-sequence equality.
    #[verifier::external_body]
    pub fn contains(&self, name: &str) -> (r: bool)
        ensures
            r == name_set_contents(*self).contains(name@),
    {
        self.set.contains(name)
    }
}

} // verus!
