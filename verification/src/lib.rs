//! An approximate set: it remembers one 64-bit hash code for each value put in,
//! never the value itself.
//!
//! A query answers "definitely absent" or "possibly present". A value whose code
//! is held is reported present, whether it was put in itself or another value
//! with the same code was.
//!
//! [`BloomFilter`] is the set. Its abstract state is the set of codes it holds,
//! and every contract is stated over that set. Hashing is done by the standard
//! library with keys drawn at construction; the declarations that this crate
//! takes on trust for it are in [`seeded_hash`], and they leave the code of a
//! value open. That a value is found again after it was put in therefore rests
//! on the standard library giving one value one code under one set of keys.
//! [`laws`] states what holds of the codes over a run of insertions.
pub mod filter;
pub mod laws;
pub mod seeded_hash;

pub use filter::BloomFilter;
