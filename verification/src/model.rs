//! The mathematical model of a sequence engine.
//!
//! An engine is modelled by the value it currently retains, which may be
//! absent, and by its step function ([`State`]). Each operation of an engine
//! is modelled by a relation between the state before the call, the state
//! after it and the value handed back: [`set_value`], [`clear_value`], and one
//! relation for `next` under each production strategy ([`next_twice`],
//! [`next_copy`], [`next_clone`]).
//!
//! The step function is an executable closure. What it may return on a value
//! is given by `call_ensures`, which is a relation: nothing here assumes that
//! two calls on one value agree. A pure step function is one whose results
//! are those of a mathematical function ([`computes`]); for such a function
//! the values of a sequence are those of its orbit ([`orbit`]).

use vstd::prelude::*;

verus! {

/// What an engine is, seen from its contracts: the retained value and the
/// step function given at construction.
pub struct State<Data, Step> {
    /// The retained value. Absent means that the sequence is exhausted, or
    /// was never seeded.
    pub current: Option<Data>,
    /// The step function. No operation of an engine changes it.
    pub step: Step,
}

impl<Data, Step: Fn(&Data) -> Option<Data>> State<Data, Step> {
    /// The step function may be called on the retained value, if there is one.
    /// This is all that `next` asks of its caller.
    pub open spec fn callable(self) -> bool {
        match self.current {
            Some(v) => call_requires(self.step, (&v,)),
            None => true,
        }
    }

    /// `out` is a possible result of one step from the retained value: a
    /// result of the step function on it, or absent when nothing is retained.
    pub open spec fn may_yield(self, out: Option<Data>) -> bool {
        match self.current {
            Some(v) => call_ensures(self.step, (&v,), out),
            None => out is None,
        }
    }

    /// `after` is a possible state one step later: the same step function,
    /// retaining a result of one step from the retained value.
    pub open spec fn advances_to(self, after: Self) -> bool {
        &&& after.step == self.step
        &&& self.may_yield(after.current)
    }
}

/// One call of `set(value)`: the engine retains `value` and hands back what
/// it retained before.
pub open spec fn set_value<Data, Step>(
    before: State<Data, Step>,
    value: Data,
    after: State<Data, Step>,
    previous: Option<Data>,
) -> bool {
    &&& after.step == before.step
    &&& after.current == Some(value)
    &&& previous == before.current
}

/// One call of `clear()`: the engine retains nothing and hands back what it
/// retained before.
pub open spec fn clear_value<Data, Step>(
    before: State<Data, Step>,
    after: State<Data, Step>,
    previous: Option<Data>,
) -> bool {
    &&& after.step == before.step
    &&& after.current is None
    &&& previous == before.current
}

/// One call of `next` under dual evaluation: the step function is evaluated
/// twice on the value retained before the call, once for the engine and once
/// for the caller.
pub open spec fn next_twice<Data, Step: Fn(&Data) -> Option<Data>>(
    before: State<Data, Step>,
    after: State<Data, Step>,
    out: Option<Data>,
) -> bool {
    &&& before.advances_to(after)
    &&& before.may_yield(out)
}

/// One call of `next` under duplication by copy: the step function is
/// evaluated once, and the caller gets the very value that is retained.
pub open spec fn next_copy<Data, Step: Fn(&Data) -> Option<Data>>(
    before: State<Data, Step>,
    after: State<Data, Step>,
    out: Option<Data>,
) -> bool {
    &&& before.advances_to(after)
    &&& out == after.current
}

/// One call of `next` under duplication by clone: the step function is
/// evaluated once, and the caller gets a clone of the value that is retained.
pub open spec fn next_clone<Data: Clone, Step: Fn(&Data) -> Option<Data>>(
    before: State<Data, Step>,
    after: State<Data, Step>,
    out: Option<Data>,
) -> bool {
    &&& before.advances_to(after)
    &&& duplicated(after.current, out)
}

/// `given` is what duplicating `kept` by `Clone` may hand out: absent for
/// absent, and otherwise a clone of the value kept.
pub open spec fn duplicated<Data: Clone>(kept: Option<Data>, given: Option<Data>) -> bool {
    match kept {
        Some(k) => given matches Some(g) && cloned(k, g),
        None => given is None,
    }
}

/// Cloning a `Data` gives back an equal value, as it does for the integers
/// and for every type whose `clone` promises it.
pub open spec fn clone_is_exact<Data: Clone>() -> bool {
    forall|a: Data, b: Data| #[trigger] cloned(a, b) ==> a == b
}

/// The state in which the call that left `states[i]` started: `start` for the
/// first call, and the state left by the call before it for the others.
pub open spec fn state_before<Data, Step>(
    start: State<Data, Step>,
    states: Seq<State<Data, Step>>,
    i: int,
) -> State<Data, Step> {
    if i == 0 {
        start
    } else {
        states[i - 1]
    }
}

/// `states` are the states left by successive calls of `next`, with no other
/// operation in between, on an engine that started in `start`. This much
/// holds under every strategy.
pub open spec fn chain<Data, Step: Fn(&Data) -> Option<Data>>(
    start: State<Data, Step>,
    states: Seq<State<Data, Step>>,
) -> bool {
    forall|i: int|
        0 <= i < states.len() ==> (#[trigger] state_before(start, states, i)).advances_to(states[i])
}

/// `states` and `outs` are what successive calls of `next` under dual
/// evaluation leave and return, on an engine that started in `start`.
pub open spec fn twice_calls<Data, Step: Fn(&Data) -> Option<Data>>(
    start: State<Data, Step>,
    states: Seq<State<Data, Step>>,
    outs: Seq<Option<Data>>,
) -> bool {
    &&& outs.len() == states.len()
    &&& forall|i: int|
        0 <= i < states.len() ==> next_twice(
            #[trigger] state_before(start, states, i),
            states[i],
            outs[i],
        )
}

/// `states` and `outs` are what successive calls of `next` under duplication
/// by copy leave and return, on an engine that started in `start`.
pub open spec fn copy_calls<Data, Step: Fn(&Data) -> Option<Data>>(
    start: State<Data, Step>,
    states: Seq<State<Data, Step>>,
    outs: Seq<Option<Data>>,
) -> bool {
    &&& outs.len() == states.len()
    &&& forall|i: int|
        0 <= i < states.len() ==> next_copy(
            #[trigger] state_before(start, states, i),
            states[i],
            outs[i],
        )
}

/// `states` and `outs` are what successive calls of `next` under duplication
/// by clone leave and return, on an engine that started in `start`.
pub open spec fn clone_calls<Data: Clone, Step: Fn(&Data) -> Option<Data>>(
    start: State<Data, Step>,
    states: Seq<State<Data, Step>>,
    outs: Seq<Option<Data>>,
) -> bool {
    &&& outs.len() == states.len()
    &&& forall|i: int|
        0 <= i < states.len() ==> next_clone(
            #[trigger] state_before(start, states, i),
            states[i],
            outs[i],
        )
}

/// `step` is a pure function, and `f` is the function it computes: whatever
/// `step` returns on a value `v` is `f(v)`.
pub open spec fn computes<Data, Step: Fn(&Data) -> Option<Data>>(
    step: Step,
    f: spec_fn(Data) -> Option<Data>,
) -> bool {
    forall|v: Data, out: Option<Data>| #[trigger] call_ensures(step, (&v,), out) ==> out == f(v)
}

/// One application of `f` to a value that may be absent. Absent stays absent.
pub open spec fn advance<Data>(f: spec_fn(Data) -> Option<Data>, current: Option<Data>) -> Option<
    Data,
> {
    match current {
        Some(v) => f(v),
        None => None,
    }
}

/// The value reached from `start` by `n` applications of `f`: `start`, then
/// `f(start)`, `f(f(start))` and so on, absent from the first absent result on.
pub open spec fn orbit<Data>(f: spec_fn(Data) -> Option<Data>, start: Option<Data>, n: nat) -> Option<
    Data,
>
    decreases n,
{
    if n == 0 {
        start
    } else {
        advance(f, orbit(f, start, (n - 1) as nat))
    }
}

} // verus!
