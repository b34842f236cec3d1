//! The standard library's keyed hashing, as far as the filter calls it.
//!
//! Nothing in this file is proved. Each declaration below hands a call to the
//! standard library and claims nothing of what comes back: the keys are random,
//! and what a value feeds to a hasher is up to its `Hash` impl. The verified code
//! therefore treats every hash code as an arbitrary `u64`.
use std::collections::hash_map::DefaultHasher;
use std::collections::hash_map::RandomState;
use std::hash::BuildHasher;
use std::hash::Hash;
use vstd::prelude::*;

verus! {

/// `RandomState::new` makes a hasher factory with freshly drawn keys.
///
/// Which keys it holds is left open.
pub assume_specification[ RandomState::new ]() -> (state: RandomState);

/// `BuildHasher::build_hasher` of `RandomState` starts a hasher on the keys of
/// `state`.
///
/// The hasher is opaque here: nothing is said of its contents.
pub assume_specification[ <RandomState as BuildHasher>::build_hasher ](
    state: &RandomState,
) -> (hasher: DefaultHasher);

/// `Hash::hash` of `T`: lets `value` write itself into `hasher`.
///
/// What is written is decided by the impl of `T`, so nothing is said of the hasher
/// afterwards. An impl that panics takes its caller with it; those of the standard
/// library return.
#[verifier::external_body]
pub(crate) fn feed<T: Hash>(value: &T, hasher: &mut DefaultHasher) {
    value.hash(hasher);
}

} // verus!
