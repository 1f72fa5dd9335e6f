//! The three named engines, one for each production strategy.
//!
//! Each wraps a [`Recursion`] bound to its strategy and offers the same four
//! operations with the same contracts, so that a caller names a concrete type
//! and never a strategy.

use crate::engine::{CallTwice, CloneNew, CopyNew, Recursion};
use crate::model::{clear_value, next_clone, next_copy, next_twice, set_value, State};
use vstd::prelude::*;

verus! {

/// A sequence engine under dual evaluation. To get from one retained value to
/// two new ones, the one it keeps and the one it returns, it calls the step
/// function twice. The two agree only where the step function is pure.
pub struct CallTwiceRecursion<Data, Step>(Recursion<Data, Step, CallTwice>);

impl<Data, Step> View for CallTwiceRecursion<Data, Step> {
    type V = State<Data, Step>;

    closed spec fn view(&self) -> State<Data, Step> {
        self.0@
    }
}

impl<Data, Step: Fn(&Data) -> Option<Data>> CallTwiceRecursion<Data, Step> {
    /// Makes an engine that retains `data` and steps by `next`. An absent
    /// `data` is an engine that is exhausted from the start.
    pub fn new(data: Option<Data>, next: Step) -> (engine: Self)
        ensures
            engine@ == (State { current: data, step: next }),
    {
        CallTwiceRecursion(Recursion::new(data, next))
    }

    /// Calls the step function on the retained value twice: the first result
    /// is retained, the second returned. Returns `None` and retains nothing
    /// where nothing was retained.
    pub fn next(&mut self) -> (out: Option<Data>)
        requires
            old(self)@.callable(),
        ensures
            next_twice(old(self)@, final(self)@, out),
    {
        self.0.next()
    }

    /// Replaces the retained value by `data` and returns the one retained
    /// before, if any. This reseeds a running or an exhausted sequence.
    pub fn set(&mut self, data: Data) -> (previous: Option<Data>)
        ensures
            set_value(old(self)@, data, final(self)@, previous),
    {
        self.0.set(data)
    }

    /// Removes the retained value and returns it, if there was one. The
    /// sequence is exhausted until the next `set`.
    pub fn clear(&mut self) -> (previous: Option<Data>)
        ensures
            clear_value(old(self)@, final(self)@, previous),
    {
        self.0.clear()
    }
}

/// A sequence engine that duplicates by clone. It calls the step function
/// once, keeps the new value and returns a clone of it.
pub struct CloneRecursion<Data: Clone, Step>(Recursion<Data, Step, CloneNew>);

impl<Data: Clone, Step> View for CloneRecursion<Data, Step> {
    type V = State<Data, Step>;

    closed spec fn view(&self) -> State<Data, Step> {
        self.0@
    }
}

impl<Data: Clone, Step: Fn(&Data) -> Option<Data>> CloneRecursion<Data, Step> {
    /// Makes an engine that retains `data` and steps by `next`. An absent
    /// `data` is an engine that is exhausted from the start.
    pub fn new(data: Option<Data>, next: Step) -> (engine: Self)
        ensures
            engine@ == (State { current: data, step: next }),
    {
        CloneRecursion(Recursion::new(data, next))
    }

    /// Calls the step function on the retained value once, retains the
    /// result and returns a clone of it. Returns `None` and retains nothing
    /// where nothing was retained.
    pub fn next(&mut self) -> (out: Option<Data>)
        requires
            old(self)@.callable(),
        ensures
            next_clone(old(self)@, final(self)@, out),
    {
        self.0.next()
    }

    /// Replaces the retained value by `data` and returns the one retained
    /// before, if any. This reseeds a running or an exhausted sequence.
    pub fn set(&mut self, data: Data) -> (previous: Option<Data>)
        ensures
            set_value(old(self)@, data, final(self)@, previous),
    {
        self.0.set(data)
    }

    /// Removes the retained value and returns it, if there was one. The
    /// sequence is exhausted until the next `set`.
    pub fn clear(&mut self) -> (previous: Option<Data>)
        ensures
            clear_value(old(self)@, final(self)@, previous),
    {
        self.0.clear()
    }
}

/// A sequence engine that duplicates by copy. It calls the step function
/// once, keeps the new value and returns a copy of it.
pub struct CopyRecursion<Data: Copy, Step>(Recursion<Data, Step, CopyNew>);

impl<Data: Copy, Step> View for CopyRecursion<Data, Step> {
    type V = State<Data, Step>;

    closed spec fn view(&self) -> State<Data, Step> {
        self.0@
    }
}

impl<Data: Copy, Step: Fn(&Data) -> Option<Data>> CopyRecursion<Data, Step> {
    /// Makes an engine that retains `data` and steps by `next`. An absent
    /// `data` is an engine that is exhausted from the start.
    pub fn new(data: Option<Data>, next: Step) -> (engine: Self)
        ensures
            engine@ == (State { current: data, step: next }),
    {
        CopyRecursion(Recursion::new(data, next))
    }

    /// Calls the step function on the retained value once, retains the
    /// result and returns a copy of it. Returns `None` and retains nothing
    /// where nothing was retained.
    pub fn next(&mut self) -> (out: Option<Data>)
        requires
            old(self)@.callable(),
        ensures
            next_copy(old(self)@, final(self)@, out),
    {
        self.0.next()
    }

    /// Replaces the retained value by `data` and returns the one retained
    /// before, if any. This reseeds a running or an exhausted sequence.
    pub fn set(&mut self, data: Data) -> (previous: Option<Data>)
        ensures
            set_value(old(self)@, data, final(self)@, previous),
    {
        self.0.set(data)
    }

    /// Removes the retained value and returns it, if there was one. The
    /// sequence is exhausted until the next `set`.
    pub fn clear(&mut self) -> (previous: Option<Data>)
        ensures
            clear_value(old(self)@, final(self)@, previous),
    {
        self.0.clear()
    }
}

} // verus!
