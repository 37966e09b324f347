//! A growable sequence that keeps its elements in an inline buffer while they fit and moves
//! them to the heap once they do not, with a few small verified utilities beside it.
//!
//! Every executable function here carries a contract that Verus proves.
//!
//! The container:
//! - [`storage`] holds the type, its view (the sequence of live elements) and its
//!   constructors;
//! - [`mutate`] holds push, pop, insert, remove and clear;
//! - [`access`] holds the reads and writes in place, by position, by range and as one slice;
//! - [`iter`] holds the iterator that consumes a container;
//! - [`model`] describes a container by what its owner can observe of it, and [`laws`]
//!   proves what holds over whole histories of mutations and across the ways of reading.
//!
//! Beside it:
//! - [`bsn`] checks Dutch citizen service numbers;
//! - [`fizzbuzz`] writes the FizzBuzz line of a number into a buffer;
//! - [`extremes`] finds the largest and the smallest of a list of numbers.

pub mod model;
pub mod storage;
pub mod mutate;
pub mod access;
pub mod iter;
pub mod laws;
pub mod bsn;
pub mod fizzbuzz;
pub mod extremes;

pub use crate::iter::LocalStorageVecIter;
pub use crate::storage::LocalStorageVec;
