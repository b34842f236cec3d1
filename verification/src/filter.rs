//! The filter itself: a set of hash codes and the keys that produce them.
use crate::seeded_hash::feed;
use std::collections::hash_map::RandomState;
use std::collections::HashSet;
use std::hash::BuildHasher;
use std::hash::Hash;
use std::hash::Hasher;
use std::marker::PhantomData;
use vstd::prelude::*;

verus! {

/// An approximate set of values of type `T`.
///
/// Only the hash codes of the values are kept, so two values with the same code
/// cannot be told apart. The keys used for hashing are drawn once, when the
/// filter is made, and stay with it.
pub struct BloomFilter<T> {
    hash_codes: HashSet<u64>,
    hasher_state: RandomState,
    _tag: PhantomData<T>,
}

impl<T> View for BloomFilter<T> {
    type V = Set<u64>;

    /// The codes that the filter holds.
    closed spec fn view(&self) -> Set<u64> {
        self.hash_codes@
    }
}

impl<T> BloomFilter<T> {
    /// The hashing keys of the filter: drawn when it is made, the same ever after.
    pub closed spec fn keys(&self) -> RandomState {
        self.hasher_state
    }

    /// Makes a filter that holds no code, with hashing keys of its own.
    pub fn new() -> (filter: BloomFilter<T>)
        ensures
            filter@ == Set::<u64>::empty(),
    {
        BloomFilter {
            hash_codes: HashSet::new(),
            hasher_state: RandomState::new(),
            _tag: PhantomData,
        }
    }

    /// Puts `code` into the filter and tells whether it was new.
    pub fn insert_code(&mut self, code: u64) -> (added: bool)
        ensures
            final(self)@ == old(self)@.insert(code),
            final(self).keys() == old(self).keys(),
            added == !old(self)@.contains(code),
    {
        self.hash_codes.insert(code)
    }

    /// Tells whether the filter holds `code`.
    pub fn contains_code(&self, code: u64) -> (found: bool)
        ensures
            found == self@.contains(code),
    {
        self.hash_codes.contains(&code)
    }

    /// Hashes `t` with the keys of this filter.
    ///
    /// The code depends on the keys, which are random, and on what the `Hash` impl
    /// of `T` writes, so nothing is promised of it: the callers are proved for
    /// every `u64` it might be.
    fn get_hash(&self, t: &T) -> u64 where T: Hash {
        let mut hasher = self.hasher_state.build_hasher();
        feed(t, &mut hasher);
        hasher.finish()
    }

    /// Puts the hash code of `t` into the filter.
    ///
    /// Returns `true` if that code was not held before, so that `t` was
    /// definitely not put in earlier, and `false` if it was held, so that `t`, or
    /// another value with the same code, may have been.
    ///
    /// The code is whatever the hasher gives: the contract holds for each `u64` it
    /// might be.
    pub fn insert(&mut self, t: &T) -> (added: bool) where T: Hash
        ensures
            exists|code: u64|
                #![trigger old(self)@.contains(code)]
                final(self)@ == old(self)@.insert(code) && added == !old(self)@.contains(code),
            final(self).keys() == old(self).keys(),
            old(self)@.subset_of(final(self)@),
            !added ==> final(self)@ == old(self)@,
            old(self)@.is_empty() ==> added,
    {
        let code = self.get_hash(t);
        self.insert_code(code)
    }

    /// Tells whether the filter holds the hash code of `t`.
    ///
    /// `false` means that the code is not held. `true` means that it is, be it
    /// from `t` or from another value with the same code.
    ///
    /// The code is whatever the hasher gives: the contract holds for each `u64` it
    /// might be.
    pub fn possibly_contains(&self, t: &T) -> (found: bool) where T: Hash
        ensures
            exists|code: u64| found == #[trigger] self@.contains(code),
            self@.is_empty() ==> !found,
    {
        let code = self.get_hash(t);
        self.contains_code(code)
    }
}

} // verus!
