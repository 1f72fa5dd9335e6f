//! What holds of every engine, proved from the model that the engines'
//! contracts are stated over.
//!
//! A law about several calls takes the states that the engine goes through,
//! and what the calls hand back, as its parameters, and asks of them what the
//! contracts of the calls ensure.

use crate::model::{
    advance, chain, clear_value, clone_calls, clone_is_exact, computes, copy_calls, duplicated,
    next_clone, next_copy, next_twice, orbit, set_value, state_before, twice_calls, State,
};
use vstd::prelude::*;

verus! {

/// Once the orbit of a function is absent it stays absent: a sequence that
/// has ended does not resume by itself.
pub proof fn orbit_stays_exhausted<Data>(
    f: spec_fn(Data) -> Option<Data>,
    start: Option<Data>,
    n: nat,
    m: nat,
)
    requires
        orbit(f, start, n) is None,
        n <= m,
    ensures
        orbit(f, start, m) is None,
    decreases m,
{
    if n < m {
        orbit_stays_exhausted(f, start, n, (m - 1) as nat);
    }
}

/// With a pure step function, one step from a state leads to exactly one
/// state: the one that retains the function's result.
pub proof fn step_is_determined<Data, Step: Fn(&Data) -> Option<Data>>(
    f: spec_fn(Data) -> Option<Data>,
    before: State<Data, Step>,
    after: State<Data, Step>,
)
    requires
        computes(before.step, f),
        before.advances_to(after),
    ensures
        after == (State { current: advance(f, before.current), step: before.step }),
{
}

/// A chain of calls of `next` is still a chain without its last call.
proof fn chain_without_last<Data, Step: Fn(&Data) -> Option<Data>>(
    start: State<Data, Step>,
    states: Seq<State<Data, Step>>,
)
    requires
        chain(start, states),
        states.len() > 0,
    ensures
        chain(start, states.drop_last()),
        state_before(start, states, states.len() - 1).advances_to(states.last()),
{
    let shorter = states.drop_last();
    assert forall|i: int| 0 <= i < shorter.len() implies (#[trigger] state_before(
        start,
        shorter,
        i,
    )).advances_to(shorter[i]) by {
        assert(state_before(start, states, i).advances_to(states[i]));
    }
}

/// A chain of calls of `next` is a chain from any of its states on.
proof fn chain_from<Data, Step: Fn(&Data) -> Option<Data>>(
    start: State<Data, Step>,
    states: Seq<State<Data, Step>>,
    n: int,
)
    requires
        chain(start, states),
        0 <= n < states.len(),
    ensures
        chain(states[n], states.subrange(n + 1, states.len() as int)),
{
    let rest = states.subrange(n + 1, states.len() as int);
    assert forall|i: int| 0 <= i < rest.len() implies (#[trigger] state_before(
        states[n],
        rest,
        i,
    )).advances_to(rest[i]) by {
        assert(state_before(start, states, n + 1 + i).advances_to(states[n + 1 + i]));
    }
}

/// With a pure step function `f`, successive calls of `next` walk along the
/// orbit of `f`, under every strategy: the `i`-th call (counting from zero)
/// leaves the engine retaining the result of `i + 1` applications of `f` to
/// what it retained at the start. The step function is never changed.
pub proof fn chain_follows_orbit<Data, Step: Fn(&Data) -> Option<Data>>(
    f: spec_fn(Data) -> Option<Data>,
    start: State<Data, Step>,
    states: Seq<State<Data, Step>>,
)
    requires
        computes(start.step, f),
        chain(start, states),
    ensures
        forall|i: int|
            0 <= i < states.len() ==> #[trigger] states[i] == (State {
                current: orbit(f, start.current, (i + 1) as nat),
                step: start.step,
            }),
    decreases states.len(),
{
    if states.len() > 0 {
        let shorter = states.drop_last();
        let last = states.len() - 1;
        chain_without_last(start, states);
        chain_follows_orbit(f, start, shorter);
        let before = state_before(start, states, last);
        assert(before == (State { current: orbit(f, start.current, last as nat), step: start.step }))
            by {
            if last > 0 {
                assert(before == shorter[last - 1]);
            }
        }
        step_is_determined(f, before, states[last]);
        assert forall|i: int| 0 <= i < states.len() implies #[trigger] states[i] == (State {
            current: orbit(f, start.current, (i + 1) as nat),
            step: start.step,
        }) by {
            if i < last {
                assert(states[i] == shorter[i]);
            }
        }
    }
}

/// An engine that retains nothing stays as it is under any number of calls
/// of `next`, under every strategy and whatever the step function does:
/// exhaustion is permanent until the next `set`.
pub proof fn exhausted_state_is_final<Data, Step: Fn(&Data) -> Option<Data>>(
    start: State<Data, Step>,
    states: Seq<State<Data, Step>>,
)
    requires
        start.current is None,
        chain(start, states),
    ensures
        forall|i: int| 0 <= i < states.len() ==> #[trigger] states[i] == start,
    decreases states.len(),
{
    if states.len() > 0 {
        let shorter = states.drop_last();
        let last = states.len() - 1;
        chain_without_last(start, states);
        exhausted_state_is_final(start, shorter);
        let before = state_before(start, states, last);
        assert(before == start) by {
            if last > 0 {
                assert(before == shorter[last - 1]);
            }
        }
        assert forall|i: int| 0 <= i < states.len() implies #[trigger] states[i] == start by {
            if i < last {
                assert(states[i] == shorter[i]);
            }
        }
    }
}

/// Once an engine retains nothing after some call of `next`, it is in that
/// same state after every later call of the chain.
pub proof fn exhausted_from_then_on<Data, Step: Fn(&Data) -> Option<Data>>(
    start: State<Data, Step>,
    states: Seq<State<Data, Step>>,
    n: int,
)
    requires
        chain(start, states),
        0 <= n < states.len(),
        states[n].current is None,
    ensures
        forall|i: int| n <= i < states.len() ==> #[trigger] states[i] == states[n],
{
    let rest = states.subrange(n + 1, states.len() as int);
    chain_from(start, states, n);
    exhausted_state_is_final(states[n], rest);
    assert forall|i: int| n <= i < states.len() implies #[trigger] states[i] == states[n] by {
        if i > n {
            assert(states[i] == rest[i - n - 1]);
        }
    }
}

/// Where cloning is exact, a duplicate is equal to what it duplicates.
pub proof fn duplicate_of_exact_clone<Data: Clone>(kept: Option<Data>, given: Option<Data>)
    requires
        clone_is_exact::<Data>(),
        duplicated(kept, given),
    ensures
        given == kept,
{
}

/// With a pure step function the two evaluations of one call of `next` under
/// dual evaluation agree: the value returned is the value retained, as under
/// duplication by copy.
pub proof fn twice_agrees_when_pure<Data, Step: Fn(&Data) -> Option<Data>>(
    f: spec_fn(Data) -> Option<Data>,
    before: State<Data, Step>,
    after: State<Data, Step>,
    out: Option<Data>,
)
    requires
        computes(before.step, f),
        next_twice(before, after, out),
    ensures
        out == advance(f, before.current),
        next_copy(before, after, out),
{
}

/// With a pure step function, calls of `next` under dual evaluation leave and
/// return what calls under duplication by copy do.
pub proof fn twice_calls_are_copy_calls<Data, Step: Fn(&Data) -> Option<Data>>(
    f: spec_fn(Data) -> Option<Data>,
    start: State<Data, Step>,
    states: Seq<State<Data, Step>>,
    outs: Seq<Option<Data>>,
)
    requires
        computes(start.step, f),
        twice_calls(start, states, outs),
    ensures
        copy_calls(start, states, outs),
{
    assert(chain(start, states));
    chain_follows_orbit(f, start, states);
    assert forall|i: int| 0 <= i < states.len() implies next_copy(
        #[trigger] state_before(start, states, i),
        states[i],
        outs[i],
    ) by {
        let before = state_before(start, states, i);
        assert(before.step == start.step) by {
            if i > 0 {
                assert(before == states[i - 1]);
            }
        }
        twice_agrees_when_pure(f, before, states[i], outs[i]);
    }
}

/// An engine that duplicates by copy, seeded with `seed` and stepping by a
/// pure function `f`, yields `f(seed)`, `f(f(seed))`, `f(f(f(seed)))` and so
/// on until `f` returns nothing: the `i`-th call of `next` (counting from
/// zero) returns the result of `i + 1` applications of `f` to the seed, which
/// is absent from the first absent result on.
pub proof fn copy_engine_yields_orbit<Data, Step: Fn(&Data) -> Option<Data>>(
    f: spec_fn(Data) -> Option<Data>,
    step: Step,
    seed: Data,
    states: Seq<State<Data, Step>>,
    outs: Seq<Option<Data>>,
)
    requires
        computes(step, f),
        copy_calls(State { current: Some(seed), step }, states, outs),
    ensures
        forall|i: int|
            0 <= i < outs.len() ==> #[trigger] outs[i] == orbit(f, Some(seed), (i + 1) as nat),
{
    let start = State { current: Some(seed), step };
    assert(chain(start, states));
    chain_follows_orbit(f, start, states);
    assert forall|i: int| 0 <= i < outs.len() implies #[trigger] outs[i] == orbit(
        f,
        Some(seed),
        (i + 1) as nat,
    ) by {
        assert(next_copy(state_before(start, states, i), states[i], outs[i]));
    }
}

/// An engine that duplicates by clone, seeded with `seed` and stepping by a
/// pure function `f`, retains `f(seed)`, `f(f(seed))` and so on until `f`
/// returns nothing, and each call of `next` returns a clone of what the
/// engine then retains. Where cloning is exact, the values returned are those
/// of the orbit themselves.
pub proof fn clone_engine_yields_orbit<Data: Clone, Step: Fn(&Data) -> Option<Data>>(
    f: spec_fn(Data) -> Option<Data>,
    step: Step,
    seed: Data,
    states: Seq<State<Data, Step>>,
    outs: Seq<Option<Data>>,
)
    requires
        computes(step, f),
        clone_calls(State { current: Some(seed), step }, states, outs),
    ensures
        forall|i: int|
            0 <= i < outs.len() ==> duplicated(
                orbit(f, Some(seed), (i + 1) as nat),
                #[trigger] outs[i],
            ),
        clone_is_exact::<Data>() ==> forall|i: int|
            0 <= i < outs.len() ==> #[trigger] outs[i] == orbit(f, Some(seed), (i + 1) as nat),
{
    let start = State { current: Some(seed), step };
    assert(chain(start, states));
    chain_follows_orbit(f, start, states);
    assert forall|i: int| 0 <= i < outs.len() implies duplicated(
        orbit(f, Some(seed), (i + 1) as nat),
        #[trigger] outs[i],
    ) by {
        assert(next_clone(state_before(start, states, i), states[i], outs[i]));
    }
}

/// An engine under dual evaluation, seeded with `seed` and stepping by a pure
/// function `f`, yields the same sequence as the duplicating engines: the
/// `i`-th call of `next` (counting from zero) returns the result of `i + 1`
/// applications of `f` to the seed.
pub proof fn twice_engine_yields_orbit<Data, Step: Fn(&Data) -> Option<Data>>(
    f: spec_fn(Data) -> Option<Data>,
    step: Step,
    seed: Data,
    states: Seq<State<Data, Step>>,
    outs: Seq<Option<Data>>,
)
    requires
        computes(step, f),
        twice_calls(State { current: Some(seed), step }, states, outs),
    ensures
        forall|i: int|
            0 <= i < outs.len() ==> #[trigger] outs[i] == orbit(f, Some(seed), (i + 1) as nat),
{
    twice_calls_are_copy_calls(f, State { current: Some(seed), step }, states, outs);
    copy_engine_yields_orbit(f, step, seed, states, outs);
}

/// Once a call of `next` on an engine that duplicates by copy has returned
/// nothing, every later call returns nothing, whatever the step function
/// does: the sequence does not resume without a `set`.
pub proof fn copy_exhaustion_is_permanent<Data, Step: Fn(&Data) -> Option<Data>>(
    start: State<Data, Step>,
    states: Seq<State<Data, Step>>,
    outs: Seq<Option<Data>>,
    n: int,
)
    requires
        copy_calls(start, states, outs),
        0 <= n < outs.len(),
        outs[n] is None,
    ensures
        forall|i: int| n <= i < outs.len() ==> (#[trigger] outs[i]) is None,
{
    assert(chain(start, states));
    assert(next_copy(state_before(start, states, n), states[n], outs[n]));
    exhausted_from_then_on(start, states, n);
    assert forall|i: int| n <= i < outs.len() implies (#[trigger] outs[i]) is None by {
        assert(next_copy(state_before(start, states, i), states[i], outs[i]));
    }
}

/// Once a call of `next` on an engine that duplicates by clone has returned
/// nothing, every later call returns nothing, whatever the step function
/// does: the sequence does not resume without a `set`.
pub proof fn clone_exhaustion_is_permanent<Data: Clone, Step: Fn(&Data) -> Option<Data>>(
    start: State<Data, Step>,
    states: Seq<State<Data, Step>>,
    outs: Seq<Option<Data>>,
    n: int,
)
    requires
        clone_calls(start, states, outs),
        0 <= n < outs.len(),
        outs[n] is None,
    ensures
        forall|i: int| n <= i < outs.len() ==> (#[trigger] outs[i]) is None,
{
    assert(chain(start, states));
    assert(next_clone(state_before(start, states, n), states[n], outs[n]));
    exhausted_from_then_on(start, states, n);
    assert forall|i: int| n <= i < outs.len() implies (#[trigger] outs[i]) is None by {
        assert(next_clone(state_before(start, states, i), states[i], outs[i]));
    }
}

/// Once a call of `next` on an engine under dual evaluation has returned
/// nothing, every later call returns nothing, provided that the step function
/// is pure. (With an impure one the engine may have retained a value from the
/// first evaluation while the second gave nothing.)
pub proof fn twice_exhaustion_is_permanent<Data, Step: Fn(&Data) -> Option<Data>>(
    f: spec_fn(Data) -> Option<Data>,
    start: State<Data, Step>,
    states: Seq<State<Data, Step>>,
    outs: Seq<Option<Data>>,
    n: int,
)
    requires
        computes(start.step, f),
        twice_calls(start, states, outs),
        0 <= n < outs.len(),
        outs[n] is None,
    ensures
        forall|i: int| n <= i < outs.len() ==> (#[trigger] outs[i]) is None,
{
    twice_calls_are_copy_calls(f, start, states, outs);
    copy_exhaustion_is_permanent(start, states, outs, n);
}

/// `set(value)` followed by `next()` on an engine that duplicates by copy,
/// with a pure step function `f`: `set` returns what the engine retained, and
/// `next` returns `f(value)`, which is also what the engine then retains.
pub proof fn copy_next_after_set<Data, Step: Fn(&Data) -> Option<Data>>(
    f: spec_fn(Data) -> Option<Data>,
    engine: State<Data, Step>,
    value: Data,
    seeded: State<Data, Step>,
    previous: Option<Data>,
    after: State<Data, Step>,
    out: Option<Data>,
)
    requires
        computes(engine.step, f),
        set_value(engine, value, seeded, previous),
        next_copy(seeded, after, out),
    ensures
        previous == engine.current,
        out == f(value),
        after == (State { current: f(value), step: engine.step }),
{
}

/// `set(value)` followed by `next()` on an engine that duplicates by clone,
/// with a pure step function `f`: `set` returns what the engine retained, the
/// engine then retains `f(value)`, and `next` returns a clone of it, which is
/// `f(value)` itself where cloning is exact.
pub proof fn clone_next_after_set<Data: Clone, Step: Fn(&Data) -> Option<Data>>(
    f: spec_fn(Data) -> Option<Data>,
    engine: State<Data, Step>,
    value: Data,
    seeded: State<Data, Step>,
    previous: Option<Data>,
    after: State<Data, Step>,
    out: Option<Data>,
)
    requires
        computes(engine.step, f),
        set_value(engine, value, seeded, previous),
        next_clone(seeded, after, out),
    ensures
        previous == engine.current,
        duplicated(f(value), out),
        clone_is_exact::<Data>() ==> out == f(value),
        after == (State { current: f(value), step: engine.step }),
{
}

/// `set(value)` followed by `next()` on an engine under dual evaluation, with
/// a pure step function `f`: both evaluations start from `value`, so `next`
/// returns the first iterate `f(value)`, as under the other strategies, and
/// the engine retains `f(value)`.
pub proof fn twice_next_after_set<Data, Step: Fn(&Data) -> Option<Data>>(
    f: spec_fn(Data) -> Option<Data>,
    engine: State<Data, Step>,
    value: Data,
    seeded: State<Data, Step>,
    previous: Option<Data>,
    after: State<Data, Step>,
    out: Option<Data>,
)
    requires
        computes(engine.step, f),
        set_value(engine, value, seeded, previous),
        next_twice(seeded, after, out),
    ensures
        previous == engine.current,
        out == f(value),
        after == (State { current: f(value), step: engine.step }),
{
}

/// Under dual evaluation `set(value)` followed by `next()` returns the second
/// iterate `f(f(value))` on the values whose first and second iterates
/// coincide. On every other value it is the first iterate that comes back.
pub proof fn twice_next_after_set_second_iterate<Data, Step: Fn(&Data) -> Option<Data>>(
    f: spec_fn(Data) -> Option<Data>,
    engine: State<Data, Step>,
    value: Data,
    seeded: State<Data, Step>,
    previous: Option<Data>,
    after: State<Data, Step>,
    out: Option<Data>,
)
    requires
        computes(engine.step, f),
        set_value(engine, value, seeded, previous),
        next_twice(seeded, after, out),
        advance(f, f(value)) == f(value),
    ensures
        out == advance(f, f(value)),
{
}

/// `clear()` followed by any number of calls of `next()` on an engine that
/// duplicates by copy: `clear` returns what the engine retained, and every
/// `next` returns nothing and leaves the engine retaining nothing, whatever
/// the step function does.
pub proof fn copy_next_after_clear<Data, Step: Fn(&Data) -> Option<Data>>(
    engine: State<Data, Step>,
    emptied: State<Data, Step>,
    previous: Option<Data>,
    states: Seq<State<Data, Step>>,
    outs: Seq<Option<Data>>,
)
    requires
        clear_value(engine, emptied, previous),
        copy_calls(emptied, states, outs),
    ensures
        previous == engine.current,
        forall|i: int| 0 <= i < outs.len() ==> (#[trigger] outs[i]) is None,
        forall|i: int| 0 <= i < states.len() ==> #[trigger] states[i] == emptied,
{
    assert(chain(emptied, states));
    exhausted_state_is_final(emptied, states);
    assert forall|i: int| 0 <= i < outs.len() implies (#[trigger] outs[i]) is None by {
        assert(next_copy(state_before(emptied, states, i), states[i], outs[i]));
    }
}

/// `clear()` followed by any number of calls of `next()` on an engine that
/// duplicates by clone: `clear` returns what the engine retained, and every
/// `next` returns nothing and leaves the engine retaining nothing, whatever
/// the step function does.
pub proof fn clone_next_after_clear<Data: Clone, Step: Fn(&Data) -> Option<Data>>(
    engine: State<Data, Step>,
    emptied: State<Data, Step>,
    previous: Option<Data>,
    states: Seq<State<Data, Step>>,
    outs: Seq<Option<Data>>,
)
    requires
        clear_value(engine, emptied, previous),
        clone_calls(emptied, states, outs),
    ensures
        previous == engine.current,
        forall|i: int| 0 <= i < outs.len() ==> (#[trigger] outs[i]) is None,
        forall|i: int| 0 <= i < states.len() ==> #[trigger] states[i] == emptied,
{
    assert(chain(emptied, states));
    exhausted_state_is_final(emptied, states);
    assert forall|i: int| 0 <= i < outs.len() implies (#[trigger] outs[i]) is None by {
        assert(next_clone(state_before(emptied, states, i), states[i], outs[i]));
    }
}

/// `clear()` followed by any number of calls of `next()` on an engine under
/// dual evaluation: `clear` returns what the engine retained, and every
/// `next` returns nothing and leaves the engine retaining nothing, whatever
/// the step function does.
pub proof fn twice_next_after_clear<Data, Step: Fn(&Data) -> Option<Data>>(
    engine: State<Data, Step>,
    emptied: State<Data, Step>,
    previous: Option<Data>,
    states: Seq<State<Data, Step>>,
    outs: Seq<Option<Data>>,
)
    requires
        clear_value(engine, emptied, previous),
        twice_calls(emptied, states, outs),
    ensures
        previous == engine.current,
        forall|i: int| 0 <= i < outs.len() ==> (#[trigger] outs[i]) is None,
        forall|i: int| 0 <= i < states.len() ==> #[trigger] states[i] == emptied,
{
    assert(chain(emptied, states));
    exhausted_state_is_final(emptied, states);
    assert forall|i: int| 0 <= i < outs.len() implies (#[trigger] outs[i]) is None by {
        let before = state_before(emptied, states, i);
        assert(next_twice(before, states[i], outs[i]));
        assert(before == emptied) by {
            if i > 0 {
                assert(before == states[i - 1]);
            }
        }
    }
}

/// `clear()` twice in a row returns what the engine retained the first time
/// and nothing the second time, and the second call changes nothing.
pub proof fn clear_twice<Data, Step>(
    engine: State<Data, Step>,
    emptied: State<Data, Step>,
    first: Option<Data>,
    again: State<Data, Step>,
    second: Option<Data>,
)
    requires
        clear_value(engine, emptied, first),
        clear_value(emptied, again, second),
    ensures
        first == engine.current,
        second is None,
        again == emptied,
{
}

} // verus!
