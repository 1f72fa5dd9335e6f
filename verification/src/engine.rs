//! The sequence engine and its three production strategies.
//!
//! An engine retains an optional current value and a step function. `next`
//! derives the following value from the retained one; how the new value
//! reaches both the engine and the caller is what the strategies differ in.
//! The strategy is a type parameter, so it is fixed when the engine is made.

use crate::model::{clear_value, next_clone, next_copy, next_twice, set_value, State};
use core::marker::PhantomData;
use vstd::prelude::*;

verus! {

/// Dual evaluation: `next` calls the step function twice on the retained
/// value, once for the engine and once for the caller. The value type needs
/// neither `Copy` nor `Clone`; in exchange the step function has to be pure
/// for the two results to agree.
pub struct CallTwice;

/// Duplication by clone: `next` calls the step function once and hands the
/// caller a clone of the value it retains.
pub struct CloneNew;

/// Duplication by copy: `next` calls the step function once and hands the
/// caller a copy of the value it retains.
pub struct CopyNew;

/// A recursive sequence: a seed and a step function that maps each value to
/// the one after it, or to nothing where the sequence ends.
pub struct Recursion<Data, Step, Strategy> {
    /// The value most recently arrived at.
    data: Option<Data>,
    /// The step function. It gets the retained value and produces the next
    /// one, or `None` once the sequence has reached its end.
    next: Step,
    /// The production strategy.
    _gen: PhantomData<Strategy>,
}

impl<Data, Step, Strategy> View for Recursion<Data, Step, Strategy> {
    type V = State<Data, Step>;

    closed spec fn view(&self) -> State<Data, Step> {
        State { current: self.data, step: self.next }
    }
}

impl<Data, Step: Fn(&Data) -> Option<Data>, Strategy> Recursion<Data, Step, Strategy> {
    /// Makes an engine that retains `data` and steps by `next`. Nothing is
    /// validated: an absent `data` is an engine that is exhausted from the start.
    pub fn new(data: Option<Data>, next: Step) -> (engine: Self)
        ensures
            engine@ == (State { current: data, step: next }),
    {
        Recursion { data, next, _gen: PhantomData }
    }

    /// Replaces the retained value by `data` and returns the one retained
    /// before, if any.
    pub fn set(&mut self, data: Data) -> (previous: Option<Data>)
        ensures
            set_value(old(self)@, data, final(self)@, previous),
    {
        let mut slot = Some(data);
        core::mem::swap(&mut self.data, &mut slot);
        slot
    }

    /// Removes the retained value and returns it, if there was one.
    pub fn clear(&mut self) -> (previous: Option<Data>)
        ensures
            clear_value(old(self)@, final(self)@, previous),
    {
        self.data.take()
    }
}

impl<Data, Step: Fn(&Data) -> Option<Data>> Recursion<Data, Step, CallTwice> {
    /// Advances the engine by one step and returns a second evaluation of
    /// that same step.
    pub fn next(&mut self) -> (out: Option<Data>)
        requires
            old(self)@.callable(),
        ensures
            next_twice(old(self)@, final(self)@, out),
    {
        let mut slot = self.data.as_ref().and_then(&self.next);
        core::mem::swap(&mut self.data, &mut slot);
        slot.as_ref().and_then(&self.next)
    }
}

impl<Data: Clone, Step: Fn(&Data) -> Option<Data>> Recursion<Data, Step, CloneNew> {
    /// Advances the engine by one step and returns a clone of the value it
    /// now retains.
    pub fn next(&mut self) -> (out: Option<Data>)
        requires
            old(self)@.callable(),
        ensures
            next_clone(old(self)@, final(self)@, out),
    {
        self.data = self.data.as_ref().and_then(&self.next);
        self.data.as_ref().cloned()
    }
}

impl<Data: Copy, Step: Fn(&Data) -> Option<Data>> Recursion<Data, Step, CopyNew> {
    /// Advances the engine by one step and returns a copy of the value it
    /// now retains.
    pub fn next(&mut self) -> (out: Option<Data>)
        requires
            old(self)@.callable(),
        ensures
            next_copy(old(self)@, final(self)@, out),
    {
        self.data = self.data.as_ref().and_then(&self.next);
        self.data
    }
}

} // verus!
