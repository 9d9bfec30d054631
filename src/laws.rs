use vstd::prelude::*;

use crate::debounce::{
    deadline_from, due_effects, idle, run_spec, shut, step_spec, DebouncedEvent, Debouncer, Input,
};

verus! {

/// The end of the window that a timed event opens (its arrival time if it
/// asks for no window).
pub open spec fn window_end<E: DebouncedEvent>(e: (E, u64)) -> u64 {
    match e.0.delay_spec() {
        Some(d) => deadline_from(e.1, d),
        None => e.1,
    }
}

/// Every event asks for a window.
pub open spec fn all_debounced<E: DebouncedEvent>(es: Seq<(E, u64)>) -> bool {
    forall|i: int| 0 <= i < es.len() ==> (#[trigger] es[i]).0.delay_spec() is Some
}

/// Each event arrives before the window of the one before it ends.
pub open spec fn within_windows<E: DebouncedEvent>(es: Seq<(E, u64)>) -> bool {
    forall|i: int| 1 <= i < es.len() ==> (#[trigger] es[i]).1 < window_end(es[i - 1])
}

/// Each event arrives once the window of the one before it has ended.
pub open spec fn spaced_apart<E: DebouncedEvent>(es: Seq<(E, u64)>) -> bool {
    forall|i: int| 1 <= i < es.len() ==> (#[trigger] es[i]).1 >= window_end(es[i - 1])
}

/// The events delivered in order, each at its time, then one wake-up of the
/// timer at `end`.
pub open spec fn timed_inputs<E>(es: Seq<(E, u64)>, end: u64) -> Seq<Input<E>>
    decreases es.len(),
{
    if es.len() == 0 {
        seq![Input::Tick { now: end }]
    } else {
        seq![Input::Event { event: es[0].0, now: es[0].1 }] + timed_inputs(es.drop_first(), end)
    }
}

/// The payloads of timed events, in order.
pub open spec fn payloads<E>(es: Seq<(E, u64)>) -> Seq<E> {
    Seq::new(es.len(), |i: int| es[i].0)
}

proof fn lemma_run_first<E: DebouncedEvent>(s: Debouncer<E>, es: Seq<(E, u64)>, end: u64)
    requires
        es.len() > 0,
    ensures
        ({
            let st = step_spec(s, Input::Event { event: es[0].0, now: es[0].1 });
            run_spec(s, timed_inputs(es, end)) == (
                run_spec(st.0, timed_inputs(es.drop_first(), end)).0,
                st.1 + run_spec(st.0, timed_inputs(es.drop_first(), end)).1,
            )
        }),
{
    let ins = timed_inputs(es, end);
    assert(ins.subrange(1, ins.len() as int) =~= timed_inputs(es.drop_first(), end));
}

proof fn lemma_run_tick<E: DebouncedEvent>(s: Debouncer<E>, end: u64)
    ensures
        run_spec(s, timed_inputs(Seq::<(E, u64)>::empty(), end)) == {
            let st = step_spec(s, Input::Tick { now: end });
            (st.0, st.1)
        },
{
    let ins = timed_inputs(Seq::<(E, u64)>::empty(), end);
    assert(ins.subrange(1, ins.len() as int) =~= Seq::<Input<E>>::empty());
    let st = step_spec(s, Input::Tick { now: end });
    assert(run_spec(st.0, Seq::<Input<E>>::empty()) == (st.0, Seq::<E>::empty()));
    assert(st.1 + Seq::<E>::empty() =~= st.1);
}

proof fn lemma_burst_from<E: DebouncedEvent>(s: Debouncer<E>, es: Seq<(E, u64)>, end: u64)
    requires
        !s.closed,
        es.len() > 0,
        all_debounced(es),
        within_windows(es),
        s.pending is Some ==> es[0].1 < s.deadline,
        end >= window_end(es.last()),
    ensures
        run_spec(s, timed_inputs(es, end)).1 == seq![es.last().0],
    decreases es.len(),
{
    lemma_run_first(s, es, end);
    let st = step_spec(s, Input::Event { event: es[0].0, now: es[0].1 });
    assert(es[0].0.delay_spec() is Some);
    assert(st.1 =~= Seq::<E>::empty());
    let rest = es.drop_first();
    if es.len() == 1 {
        assert(rest =~= Seq::<(E, u64)>::empty());
        lemma_run_tick(st.0, end);
        assert(st.0.pending == Some(es[0].0));
        assert(st.0.deadline == window_end(es[0]));
        assert(run_spec(st.0, timed_inputs(rest, end)).1 =~= seq![es[0].0]);
    } else {
        assert forall|i: int| 0 <= i < rest.len() implies (#[trigger] rest[i]).0.delay_spec() is Some by {
            assert(rest[i] == es[i + 1]);
        }
        assert forall|i: int| 1 <= i < rest.len() implies (#[trigger] rest[i]).1 < window_end(
            rest[i - 1],
        ) by {
            assert(rest[i] == es[i + 1]);
            assert(rest[i - 1] == es[i]);
        }
        assert(es[1].1 < window_end(es[0]));
        assert(rest.last() == es.last());
        lemma_burst_from(st.0, rest, end);
        assert(st.1 + run_spec(st.0, timed_inputs(rest, end)).1 =~= seq![es.last().0]);
    }
}

/// A burst of events that each ask for a window, each arriving before the
/// window of the one before it ends, runs the effect exactly once once the
/// last window has passed, and with the last event of the burst.
pub proof fn lemma_burst_coalesces<E: DebouncedEvent>(es: Seq<(E, u64)>, end: u64)
    requires
        es.len() > 0,
        all_debounced(es),
        within_windows(es),
        end >= window_end(es.last()),
    ensures
        run_spec(idle(), timed_inputs(es, end)).1 == seq![es.last().0],
{
    lemma_burst_from(idle(), es, end);
}

proof fn lemma_spaced_from<E: DebouncedEvent>(s: Debouncer<E>, es: Seq<(E, u64)>, end: u64)
    requires
        !s.closed,
        es.len() > 0,
        all_debounced(es),
        spaced_apart(es),
        end >= window_end(es.last()),
    ensures
        run_spec(s, timed_inputs(es, end)).1 == due_effects(s, es[0].1) + payloads(es),
    decreases es.len(),
{
    lemma_run_first(s, es, end);
    let st = step_spec(s, Input::Event { event: es[0].0, now: es[0].1 });
    assert(es[0].0.delay_spec() is Some);
    assert(st.1 == due_effects(s, es[0].1));
    let rest = es.drop_first();
    if es.len() == 1 {
        assert(rest =~= Seq::<(E, u64)>::empty());
        lemma_run_tick(st.0, end);
        assert(run_spec(st.0, timed_inputs(rest, end)).1 =~= seq![es[0].0]);
        assert(st.1 + seq![es[0].0] =~= due_effects(s, es[0].1) + payloads(es));
    } else {
        assert forall|i: int| 0 <= i < rest.len() implies (#[trigger] rest[i]).0.delay_spec() is Some by {
            assert(rest[i] == es[i + 1]);
        }
        assert forall|i: int| 1 <= i < rest.len() implies (#[trigger] rest[i]).1 >= window_end(
            rest[i - 1],
        ) by {
            assert(rest[i] == es[i + 1]);
            assert(rest[i - 1] == es[i]);
        }
        assert(es[1].1 >= window_end(es[0]));
        assert(rest.last() == es.last());
        lemma_spaced_from(st.0, rest, end);
        assert(due_effects(st.0, rest[0].1) =~= seq![es[0].0]);
        assert(st.1 + (seq![es[0].0] + payloads(rest)) =~= due_effects(s, es[0].1) + payloads(es));
    }
}

/// Events that each ask for a window, each arriving once the window of the one
/// before it has ended, run the effect once each, in order, with their own
/// payloads, once the last window has passed.
pub proof fn lemma_spaced_events_each_act<E: DebouncedEvent>(es: Seq<(E, u64)>, end: u64)
    requires
        es.len() > 0,
        all_debounced(es),
        spaced_apart(es),
        end >= window_end(es.last()),
    ensures
        run_spec(idle(), timed_inputs(es, end)).1 == payloads(es),
{
    lemma_spaced_from(idle(), es, end);
    assert(due_effects(idle::<E>(), es[0].1) + payloads(es) =~= payloads(es));
}

/// An event that asks for no window runs its effect in the same step in which
/// it arrives, before a pending window would have ended, and cancels the
/// pending timer: nothing is left to wait for.
pub proof fn lemma_immediate_acts_at_once<E: DebouncedEvent>(s: Debouncer<E>, e: E, now: u64)
    requires
        !s.closed,
        e.delay_spec() is None,
        s.pending is Some ==> now < s.deadline,
    ensures
        step_spec(s, Input::Event { event: e, now }) == (idle::<E>(), seq![e], None::<u64>, false),
{
    assert(due_effects(s, now).push(e) =~= seq![e]);
}

proof fn lemma_closed_stays_closed<E: DebouncedEvent>(s: Debouncer<E>, inputs: Seq<Input<E>>)
    requires
        s.closed,
    ensures
        run_spec(s, inputs).0.closed,
        run_spec(s, inputs).1 == Seq::<E>::empty(),
    decreases inputs.len(),
{
    if inputs.len() > 0 {
        let st = step_spec(s, inputs[0]);
        lemma_closed_stays_closed(st.0, inputs.subrange(1, inputs.len() as int));
        assert(st.1 + run_spec(st.0, inputs.subrange(1, inputs.len() as int)).1 =~= Seq::<E>::empty());
    }
}

/// Once its channel closes, an actor stops: the closing step runs nothing and
/// drops what was pending, and whatever reaches the state machine afterwards
/// also runs nothing and asks the loop to stop.
pub proof fn lemma_close_stops<E: DebouncedEvent>(s: Debouncer<E>, inputs: Seq<Input<E>>)
    requires
        s.wf(),
    ensures
        step_spec(s, Input::Closed) == (shut::<E>(), Seq::<E>::empty(), None::<u64>, true),
        run_spec(s, seq![Input::Closed] + inputs).1 == Seq::<E>::empty(),
        run_spec(s, seq![Input::Closed] + inputs).0.closed,
        forall|i: Input<E>| #[trigger] step_spec(shut::<E>(), i) == (shut::<E>(), Seq::<E>::empty(), None::<u64>, true),
{
    let ins = seq![Input::Closed] + inputs;
    assert(ins[0] == Input::<E>::Closed);
    assert(ins.subrange(1, ins.len() as int) =~= inputs);
    lemma_closed_stays_closed(shut::<E>(), inputs);
    assert(Seq::<E>::empty() + run_spec(shut::<E>(), inputs).1 =~= Seq::<E>::empty());
}

} // verus!
