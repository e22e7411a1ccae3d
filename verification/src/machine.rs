//! Runs of a step function: where it stands after a sequence of events, what
//! it asked for on the way, and how often.

use vstd::prelude::*;

verus! {

/// Where `step` stands after `events`, from `start`, and what it asked for
/// on the way, in order.
pub open spec fn run<S, E, A>(step: spec_fn(S, E) -> (S, A), start: S, events: Seq<E>) -> (
    S,
    Seq<A>,
)
    decreases events.len(),
{
    if events.len() == 0 {
        (start, Seq::empty())
    } else {
        let before = run(step, start, events.drop_last());
        let last = step(before.0, events.last());
        (last.0, before.1.push(last.1))
    }
}

/// How many of `actions` are `wanted`.
pub open spec fn count<A>(actions: Seq<A>, wanted: spec_fn(A) -> bool) -> nat
    decreases actions.len(),
{
    if actions.len() == 0 {
        0
    } else {
        count(actions.drop_last(), wanted) + if wanted(actions.last()) {
            1nat
        } else {
            0nat
        }
    }
}

/// One more event extends a run by one step.
pub proof fn lemma_run_push<S, E, A>(
    step: spec_fn(S, E) -> (S, A),
    start: S,
    events: Seq<E>,
    event: E,
)
    ensures
        run(step, start, events.push(event)) == ({
            let before = run(step, start, events);
            let last = step(before.0, event);
            (last.0, before.1.push(last.1))
        }),
{
    assert(events.push(event).drop_last() == events);
}

/// A run asks for one thing per event.
pub proof fn lemma_run_len<S, E, A>(step: spec_fn(S, E) -> (S, A), start: S, events: Seq<E>)
    ensures
        run(step, start, events).1.len() == events.len(),
    decreases events.len(),
{
    if events.len() > 0 {
        lemma_run_len(step, start, events.drop_last());
    }
}

/// A run over `first` and then `then` is the run over `first`, continued
/// from where it stands by the run over `then`.
pub proof fn lemma_run_concat<S, E, A>(
    step: spec_fn(S, E) -> (S, A),
    start: S,
    first: Seq<E>,
    then: Seq<E>,
)
    ensures
        run(step, start, first + then) == ({
            let a = run(step, start, first);
            let b = run(step, a.0, then);
            (b.0, a.1 + b.1)
        }),
    decreases then.len(),
{
    if then.len() > 0 {
        lemma_run_concat(step, start, first, then.drop_last());
        assert((first + then).drop_last() == first + then.drop_last());
    }
}

/// Counting over two sequences of actions in a row adds up.
pub proof fn lemma_count_concat<A>(first: Seq<A>, then: Seq<A>, wanted: spec_fn(A) -> bool)
    ensures
        count(first + then, wanted) == count(first, wanted) + count(then, wanted),
    decreases then.len(),
{
    if then.len() > 0 {
        lemma_count_concat(first, then.drop_last(), wanted);
        assert((first + then).drop_last() == first + then.drop_last());
    }
}

/// A budget bounds a count: let every step from a state that is `good` lead
/// to a state that is `good`, and let `budget` grow by one at least with every
/// step that asks for something `wanted`, and never shrink. Then a run from a
/// good state ends in a good state, and what it asked for that was `wanted`
/// is no more than the budget has grown.
pub proof fn lemma_run_budget<S, E, A>(
    step: spec_fn(S, E) -> (S, A),
    start: S,
    events: Seq<E>,
    good: spec_fn(S) -> bool,
    budget: spec_fn(S) -> nat,
    wanted: spec_fn(A) -> bool,
)
    requires
        good(start),
        forall|s: S, e: E|
            good(s) ==> good((#[trigger] step(s, e)).0) && budget(step(s, e).0) >= budget(s)
                + if wanted(step(s, e).1) {
                1nat
            } else {
                0nat
            },
    ensures
        good(run(step, start, events).0),
        budget(start) + count(run(step, start, events).1, wanted) <= budget(
            run(step, start, events).0,
        ),
    decreases events.len(),
{
    if events.len() > 0 {
        lemma_run_budget(step, start, events.drop_last(), good, budget, wanted);
        let before = run(step, start, events.drop_last());
        let last = step(before.0, events.last());
        assert(before.1.push(last.1).drop_last() == before.1);
    }
}

/// A run that asks for nothing `wanted` step by step asks for nothing
/// `wanted` at all: let every step from a state that is `idle` lead to a
/// state that is `idle` and ask for nothing `wanted`.
pub proof fn lemma_run_idle<S, E, A>(
    step: spec_fn(S, E) -> (S, A),
    start: S,
    events: Seq<E>,
    idle: spec_fn(S) -> bool,
    wanted: spec_fn(A) -> bool,
)
    requires
        idle(start),
        forall|s: S, e: E| idle(s) ==> idle((#[trigger] step(s, e)).0) && !wanted(step(s, e).1),
    ensures
        idle(run(step, start, events).0),
        count(run(step, start, events).1, wanted) == 0,
    decreases events.len(),
{
    if events.len() > 0 {
        lemma_run_idle(step, start, events.drop_last(), idle, wanted);
        let before = run(step, start, events.drop_last());
        let last = step(before.0, events.last());
        assert(before.1.push(last.1).drop_last() == before.1);
    }
}

} // verus!
