//! Recursive sequences.
//!
//! A recursive sequence is given by a seed and a step function that maps each
//! value to the one after it, or to nothing where the sequence ends. An
//! engine retains the value most recently arrived at and produces the values
//! one by one: `next` advances it, `set` reseeds it, `clear` exhausts it.
//!
//! One step gives one new value, but two are needed: one for the engine to
//! retain and one for the caller. The three engines differ in how they get
//! the second one. [`CallTwiceRecursion`] calls the step function twice,
//! [`CloneRecursion`] clones the new value and [`CopyRecursion`] copies it.
//! All three are a [`Recursion`] with the strategy fixed.
//!
//! The contracts are stated over the model in [`model`]; what follows from
//! them for every engine is proved in [`laws`].

pub mod engine;
pub mod laws;
pub mod model;
pub mod wrappers;

pub use engine::{CallTwice, CloneNew, CopyNew, Recursion};
pub use wrappers::{CallTwiceRecursion, CloneRecursion, CopyRecursion};
