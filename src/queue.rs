//! Draining events breadth-first through the transition function, and what holds
//! of every run.
use vstd::prelude::*;
use std::collections::VecDeque;
use crate::state::{transition, AppEvent, AppData, Effect};

verus! {

/// One handled event: the state before and after, and what it emitted and asked for.
pub struct Step {
    pub pre: AppData,
    pub event: AppEvent,
    pub now: u64,
    pub post: AppData,
    pub emitted: Seq<AppEvent>,
    pub effects: Seq<Effect>,
}

#[verifier::opaque]
pub open spec fn is_step(t: Step) -> bool {
    transition(t.pre, t.event, t.now, t.post, t.emitted, t.effects)
}

/// `steps` handle events one after the other, from state `start` to state `end`.
pub open spec fn is_run(start: AppData, steps: Seq<Step>, end: AppData) -> bool {
    &&& forall|i: int| 0 <= i < steps.len() ==> is_step(#[trigger] steps[i])
    &&& forall|i: int|
        0 <= i < steps.len() ==> (#[trigger] steps[i]).pre == (if i == 0 {
            start
        } else {
            steps[i - 1].post
        })
    &&& end == (if steps.len() == 0 {
        start
    } else {
        steps.last().post
    })
}

/// The events that a run handled, in order.
pub open spec fn events_of(steps: Seq<Step>) -> Seq<AppEvent> {
    steps.map_values(|t: Step| t.event)
}

/// The follow-up events of a run, in the order they were emitted.
pub open spec fn emitted_of(steps: Seq<Step>) -> Seq<AppEvent>
    decreases steps.len(),
{
    if steps.len() == 0 {
        Seq::empty()
    } else {
        emitted_of(steps.drop_last()) + steps.last().emitted
    }
}

/// The effects of a run, in the order they were asked for.
pub open spec fn effects_of(steps: Seq<Step>) -> Seq<Effect>
    decreases steps.len(),
{
    if steps.len() == 0 {
        Seq::empty()
    } else {
        effects_of(steps.drop_last()) + steps.last().effects
    }
}

/// How many follow-up events an event can lead to, at most.
pub open spec fn rank(e: AppEvent) -> nat {
    match e {
        AppEvent::LocationSaved(_) => 2,
        AppEvent::SelectLocation(_) => 1,
        AppEvent::Timer => 1,
        AppEvent::Rehydrate(_, _) => 1,
        AppEvent::FetchSucceeded(_) => 1,
        AppEvent::SubmitDraft => 1,
        _ => 0,
    }
}

/// A bound on the number of events still to be handled for a queue.
pub open spec fn queue_weight(q: Seq<AppEvent>) -> nat
    decreases q.len(),
{
    if q.len() == 0 {
        0
    } else {
        queue_weight(q.drop_last()) + rank(q.last()) + 1
    }
}

proof fn lemma_weight_concat(a: Seq<AppEvent>, b: Seq<AppEvent>)
    ensures
        queue_weight(a + b) == queue_weight(a) + queue_weight(b),
    decreases b.len(),
{
    if b.len() == 0 {
        assert(a + b =~= a);
    } else {
        lemma_weight_concat(a, b.drop_last());
        assert((a + b).drop_last() =~= a + b.drop_last());
    }
}

proof fn lemma_weight_single(e: AppEvent)
    ensures
        queue_weight(seq![e]) == rank(e) + 1,
{
    assert(seq![e].drop_last() =~= Seq::<AppEvent>::empty());
    assert(queue_weight(Seq::<AppEvent>::empty()) == 0);
    assert(seq![e].last() == e);
}

/// A transition emits at most one event, and one of lower rank.
proof fn lemma_emitted_rank(pre: AppData, e: AppEvent, now: u64, post: AppData, emitted: Seq<AppEvent>, effects: Seq<Effect>)
    requires
        transition(pre, e, now, post, emitted, effects),
    ensures
        emitted.len() <= 1,
        emitted.len() == 1 ==> rank(emitted[0]) < rank(e),
{
}

proof fn lemma_step_of(t: Step)
    requires
        transition(t.pre, t.event, t.now, t.post, t.emitted, t.effects),
    ensures
        is_step(t),
{
    reveal(is_step);
}

proof fn lemma_run_extend(start: AppData, steps: Seq<Step>, t: Step)
    requires
        is_run(start, steps, t.pre),
        is_step(t),
    ensures
        is_run(start, steps.push(t), t.post),
{
    let steps2 = steps.push(t);
    assert forall|i: int| 0 <= i < steps2.len() implies is_step(#[trigger] steps2[i]) by {
        if i < steps.len() {
            assert(steps2[i] == steps[i]);
        }
    }
    assert forall|i: int| 0 <= i < steps2.len() implies #[trigger] steps2[i].pre == (if i == 0 {
        start
    } else {
        steps2[i - 1].post
    }) by {
        if i < steps.len() {
            assert(steps2[i] == steps[i]);
        } else {
            assert(steps2[i] == t);
            if i > 0 {
                assert(steps2[i - 1] == steps[i - 1]);
            }
        }
    }
}

proof fn lemma_accumulate_push(steps: Seq<Step>, t: Step)
    ensures
        emitted_of(steps.push(t)) == emitted_of(steps) + t.emitted,
        effects_of(steps.push(t)) == effects_of(steps) + t.effects,
        events_of(steps.push(t)) == events_of(steps).push(t.event),
{
    assert(steps.push(t).drop_last() =~= steps);
    assert(events_of(steps.push(t)) =~= events_of(steps).push(t.event));
}

/// Handling the head of the queue keeps the queue equal to what is left of the events.
proof fn lemma_queue_advance(
    inputs: Seq<AppEvent>,
    done: Seq<AppEvent>,
    emitted: Seq<AppEvent>,
    e: AppEvent,
    more: Seq<AppEvent>,
    q: Seq<AppEvent>,
)
    requires
        q.len() > 0,
        q[0] == e,
        q == (inputs + emitted).subrange(done.len() as int, (inputs + emitted).len() as int),
        done == (inputs + emitted).take(done.len() as int),
        done.len() <= (inputs + emitted).len(),
    ensures
        q.drop_first() + more == (inputs + (emitted + more)).subrange(done.len() + 1 as int, (inputs + (emitted + more)).len() as int),
        done.push(e) == (inputs + (emitted + more)).take(done.len() + 1 as int),
        done.len() + 1 <= (inputs + (emitted + more)).len(),
{
    let all = inputs + emitted;
    let all2 = inputs + (emitted + more);
    assert(all2 =~= all + more);
    assert(all[done.len() as int] == e);
    assert(q.drop_first() + more =~= all2.subrange(done.len() + 1 as int, all2.len() as int));
    assert(done.push(e) =~= all2.take(done.len() + 1 as int));
}

impl AppData {
    /// Handles `events` at time `now`, and then the events that they emit, breadth-first,
    /// until none is left. Returns the effects asked for, in order.
    pub fn process(&mut self, events: Vec<AppEvent>, now: u64) -> (r: Vec<Effect>)
        ensures
            exists|steps: Seq<Step>|
                {
                    &&& is_run(*old(self), steps, *final(self))
                    &&& events_of(steps) == events@ + emitted_of(steps)
                    &&& effects_of(steps) == r@
                    &&& forall|i: int| 0 <= i < steps.len() ==> (#[trigger] steps[i]).now == now
                },
    {
        let ghost start = *self;
        let ghost inputs = events@;
        let mut queue: VecDeque<AppEvent> = VecDeque::new();
        let mut input = events;
        while input.len() > 0
            invariant
                queue@ + input@ == inputs,
            decreases input.len(),
        {
            let e = input.remove(0);
            queue.push_back(e);
            proof {
                assert(queue@ + input@ =~= inputs);
            }
        }
        proof {
            assert(queue@ =~= inputs);
        }
        let mut out: Vec<Effect> = Vec::new();
        let ghost mut steps: Seq<Step> = Seq::empty();
        while queue.len() > 0
            invariant
                is_run(start, steps, *self),
                steps.len() <= (inputs + emitted_of(steps)).len(),
                queue@ == (inputs + emitted_of(steps)).subrange(steps.len() as int, (inputs + emitted_of(steps)).len() as int),
                events_of(steps) == (inputs + emitted_of(steps)).take(steps.len() as int),
                effects_of(steps) == out@,
                forall|i: int| 0 <= i < steps.len() ==> (#[trigger] steps[i]).now == now,
            decreases queue_weight(queue@),
        {
            let ghost pre = *self;
            let ghost q = queue@;
            let ghost all = inputs + emitted_of(steps);
            let e = queue.pop_front().unwrap();
            let (emitted, mut effects) = self.dispatch(e, now);
            let ghost t = Step { pre, event: e, now, post: *self, emitted: emitted@, effects: effects@ };
            proof {
                lemma_emitted_rank(pre, e, now, *self, emitted@, effects@);
                lemma_step_of(t);
                assert(q =~= seq![e] + q.drop_first());
                lemma_weight_concat(seq![e], q.drop_first());
                lemma_weight_single(e);
                lemma_weight_concat(q.drop_first(), emitted@);
                if emitted@.len() == 1 {
                    assert(emitted@ =~= seq![emitted@[0]]);
                    lemma_weight_single(emitted@[0]);
                } else {
                    assert(emitted@ =~= Seq::<AppEvent>::empty());
                }
            }
            out.append(&mut effects);
            let mut rest = emitted;
            while rest.len() > 0
                invariant
                    queue@ + rest@ == q.drop_first() + t.emitted,
                decreases rest.len(),
            {
                let x = rest.remove(0);
                queue.push_back(x);
                proof {
                    assert(queue@ + rest@ =~= q.drop_first() + t.emitted);
                }
            }
            proof {
                lemma_run_extend(start, steps, t);
                lemma_accumulate_push(steps, t);
                lemma_queue_advance(inputs, events_of(steps), emitted_of(steps), e, t.emitted, q);
                steps = steps.push(t);
            }
        }
        proof {
            let all = inputs + emitted_of(steps);
            assert(events_of(steps) =~= all);
        }
        out
    }
}

} // verus!
