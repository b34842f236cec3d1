//! What holds of the codes of a filter over a run of insertions.
//!
//! The laws are stated over the set of codes and the way one insertion changes
//! it. The last one carries them over to values, for any function that takes a
//! value to its code.
use vstd::prelude::*;

verus! {

/// The codes held once each code of `added` was put into `start`, first to last.
pub open spec fn with_codes(start: Set<u64>, added: Seq<u64>) -> Set<u64>
    decreases added.len(),
{
    if added.len() == 0 {
        start
    } else {
        with_codes(start, added.drop_last()).insert(added.last())
    }
}

/// No code is ever lost: what was held before a run of insertions is held after it.
pub proof fn lemma_codes_never_leave(start: Set<u64>, added: Seq<u64>)
    ensures
        start.subset_of(with_codes(start, added)),
    decreases added.len(),
{
    if added.len() > 0 {
        lemma_codes_never_leave(start, added.drop_last());
    }
}

/// A code that was put in is held afterwards, however many insertions followed.
pub proof fn lemma_inserted_code_is_held(start: Set<u64>, added: Seq<u64>, i: int)
    requires
        0 <= i < added.len(),
    ensures
        with_codes(start, added).contains(added[i]),
    decreases added.len(),
{
    if i < added.len() - 1 {
        lemma_inserted_code_is_held(start, added.drop_last(), i);
    }
}

/// Putting a code in a second time changes nothing, and the code is still held.
pub proof fn lemma_repeated_code_changes_nothing(codes: Set<u64>, code: u64)
    ensures
        codes.insert(code).insert(code) == codes.insert(code),
        codes.insert(code).contains(code),
{
    assert(codes.insert(code).insert(code) =~= codes.insert(code));
}

/// No false negatives: if every value is hashed by one function `hash`, then the
/// code of each value that was put in is held afterwards.
pub proof fn lemma_no_false_negatives<T>(
    hash: spec_fn(T) -> u64,
    start: Set<u64>,
    values: Seq<T>,
    i: int,
)
    requires
        0 <= i < values.len(),
    ensures
        with_codes(start, values.map_values(hash)).contains(hash(values[i])),
{
    lemma_inserted_code_is_held(start, values.map_values(hash), i);
}

} // verus!
