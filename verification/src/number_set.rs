//! A set of 32-bit numbers (block heights, runtime versions) kept in a hash set.

use vstd::prelude::*;

verus! {

/// A hash set of `u32` values. The table itself is `hashbrown`'s; what it
/// holds is spoken of through [`number_set_contents`].
#[verifier::external_body]
pub struct NumberSet {
    inner: hashbrown::HashSet<u32>,
}

/// The numbers that a [`NumberSet`] holds.
pub uninterp spec fn number_set_contents(s: NumberSet) -> Set<u32>;

impl View for NumberSet {
    type V = Set<u32>;

    open spec fn view(&self) -> Set<u32> {
        number_set_contents(*self)
    }
}

impl NumberSet {
    /// Calls `hashbrown::HashSet::new`: the set made holds nothing.
    #[verifier::external_body]
    pub(crate) fn new() -> (s: Self)
        ensures
            number_set_contents(s) == Set::<u32>::empty(),
    {
        NumberSet { inner: hashbrown::HashSet::new() }
    }

    /// Calls `hashbrown::HashSet::insert`: afterwards the set holds the value
    /// besides what it held, and the result tells whether the value was new.
    #[verifier::external_body]
    pub(crate) fn insert(&mut self, value: u32) -> (fresh: bool)
        ensures
            number_set_contents(*final(self)) == number_set_contents(*old(self)).insert(value),
            fresh == !number_set_contents(*old(self)).contains(value),
    {
        self.inner.insert(value)
    }

    /// Calls `hashbrown::HashSet::contains`: whether the set holds the value.
    #[verifier::external_body]
    pub(crate) fn contains(&self, value: u32) -> (found: bool)
        ensures
            found == number_set_contents(*self).contains(value),
    {
        self.inner.contains(&value)
    }
}

} // verus!
