//! Properties of the transition function that hold of every state and every run.
use vstd::prelude::*;
use crate::forecast::{snapshot_of, ForecastSnapshot, HistoricalForecast};
use crate::queue::{effects_of, is_run, is_step, Step};
use crate::refresh::ProviderError;
use crate::location::Location;
use crate::state::{can_fetch, is_completion, transition, AppEvent, AppData, Effect};

verus! {

/// How many fetches a sequence of effects asks for.
pub open spec fn fetch_count(effects: Seq<Effect>) -> nat
    decreases effects.len(),
{
    if effects.len() == 0 {
        0
    } else {
        fetch_count(effects.drop_last()) + if effects.last() is Fetch {
            1nat
        } else {
            0nat
        }
    }
}

proof fn lemma_fetch_count_concat(a: Seq<Effect>, b: Seq<Effect>)
    ensures
        fetch_count(a + b) == fetch_count(a) + fetch_count(b),
    decreases b.len(),
{
    if b.len() == 0 {
        assert(a + b =~= a);
    } else {
        lemma_fetch_count_concat(a, b.drop_last());
        assert((a + b).drop_last() =~= a + b.drop_last());
    }
}

/// One step that is not a fetch outcome asks for at most one fetch, only when it
/// leaves the engine fetching, and none while a fetch is in flight.
proof fn lemma_step_fetches(t: Step)
    requires
        is_step(t),
        !is_completion(t.event),
    ensures
        fetch_count(t.effects) <= 1,
        fetch_count(t.effects) == 1 ==> t.post.refresh.engine is Fetching,
        t.pre.refresh.engine is Fetching ==> t.post.refresh.engine is Fetching && fetch_count(t.effects) == 0,
        t.event is RefreshForecast && can_fetch(t.pre) ==> fetch_count(t.effects) == 1,
{
    reveal(is_step);
    assert(t.effects.len() <= 1);
    assert(fetch_count(Seq::<Effect>::empty()) == 0);
    if t.effects.len() == 1 {
        assert(t.effects.drop_last() =~= Seq::<Effect>::empty());
        assert(fetch_count(t.effects) == if t.effects[0] is Fetch {
            1nat
        } else {
            0nat
        });
    } else {
        assert(t.effects =~= Seq::<Effect>::empty());
    }
}

/// At most one fetch is in flight: however many refresh requests and timer ticks a
/// run handles, if no fetch outcome arrives in it, it starts at most one fetch, and
/// none if a fetch was already in flight when it began; if it begins with a refresh
/// request while idle with a location that decodes, it starts exactly one.
pub proof fn lemma_single_fetch_in_flight(start: AppData, steps: Seq<Step>, end: AppData)
    requires
        is_run(start, steps, end),
        forall|i: int| 0 <= i < steps.len() ==> !is_completion(#[trigger] steps[i].event),
    ensures
        fetch_count(effects_of(steps)) <= 1,
        fetch_count(effects_of(steps)) == 1 ==> end.refresh.engine is Fetching,
        start.refresh.engine is Fetching ==> fetch_count(effects_of(steps)) == 0
            && end.refresh.engine is Fetching,
        steps.len() > 0 && steps[0].event is RefreshForecast && can_fetch(start)
            ==> fetch_count(effects_of(steps)) == 1,
    decreases steps.len(),
{
    if steps.len() > 0 {
        let p = steps.drop_last();
        let t = steps.last();
        assert forall|i: int| 0 <= i < p.len() implies #[trigger] p[i] == steps[i] by {}
        assert(is_step(steps[steps.len() - 1]));
        assert(!is_completion(steps[steps.len() - 1].event));
        assert(is_run(start, p, t.pre)) by {
            assert forall|i: int| 0 <= i < p.len() implies is_step(#[trigger] p[i]) by {
                assert(p[i] == steps[i]);
            }
            assert forall|i: int| 0 <= i < p.len() implies #[trigger] p[i].pre == (if i == 0 {
                start
            } else {
                p[i - 1].post
            }) by {
                assert(p[i] == steps[i]);
                assert(steps[i].pre == (if i == 0 {
                    start
                } else {
                    steps[i - 1].post
                }));
            }
            assert(steps[steps.len() - 1].pre == (if steps.len() - 1 == 0 {
                start
            } else {
                steps[steps.len() - 2].post
            }));
        }
        assert forall|i: int| 0 <= i < p.len() implies !is_completion(#[trigger] p[i].event) by {
            assert(p[i] == steps[i]);
        }
        lemma_single_fetch_in_flight(start, p, t.pre);
        lemma_step_fetches(t);
        lemma_fetch_count_concat(effects_of(p), t.effects);
        assert(steps.drop_last() == p);
        if p.len() == 0 {
            assert(effects_of(p) =~= Seq::<Effect>::empty());
            assert(fetch_count(Seq::<Effect>::empty()) == 0);
            assert(t == steps[0]);
        } else {
            assert(p[0] == steps[0]);
        }
    }
}

/// Setting the same forecast twice in a row leaves it set to that forecast, and the
/// second time changes nothing.
pub proof fn lemma_set_forecast_twice(
    s0: AppData,
    x: ForecastSnapshot,
    now1: u64,
    s1: AppData,
    emitted1: Seq<AppEvent>,
    effects1: Seq<Effect>,
    now2: u64,
    s2: AppData,
    emitted2: Seq<AppEvent>,
    effects2: Seq<Effect>,
)
    requires
        transition(s0, AppEvent::SetForecast(x), now1, s1, emitted1, effects1),
        transition(s1, AppEvent::SetForecast(x), now2, s2, emitted2, effects2),
    ensures
        s2.current_forecast == Some(x),
        s2 == s1,
        emitted2.len() == 0,
        effects2.len() == 0,
{
}

/// Rehydrating with a stored location and a forecast record of it seeds the forecast
/// from the record, asks for no fetch, and emits exactly one refresh.
pub proof fn lemma_rehydrate_seeds_forecast(
    pre: AppData,
    loc: Location,
    rec: HistoricalForecast,
    now: u64,
    post: AppData,
    emitted: Seq<AppEvent>,
    effects: Seq<Effect>,
)
    requires
        transition(pre, AppEvent::Rehydrate(Some(loc), Some(rec)), now, post, emitted, effects),
        rec.location_id == loc.id,
    ensures
        post.current_forecast == Some(snapshot_of(rec)),
        post.selected_location == Some(loc),
        post.refresh == pre.refresh,
        effects.len() == 0,
        emitted == seq![AppEvent::RefreshForecast],
{
}

/// A failed fetch puts the engine in back-off and keeps the forecast; until the
/// back-off ends, a timer tick changes nothing and asks for nothing.
pub proof fn lemma_failure_backs_off(
    s0: AppData,
    err: ProviderError,
    now1: u64,
    s1: AppData,
    emitted1: Seq<AppEvent>,
    effects1: Seq<Effect>,
    now2: u64,
    s2: AppData,
    emitted2: Seq<AppEvent>,
    effects2: Seq<Effect>,
)
    requires
        s0.refresh.engine is Fetching,
        transition(s0, AppEvent::FetchFailed(err), now1, s1, emitted1, effects1),
        transition(s1, AppEvent::Timer, now2, s2, emitted2, effects2),
    ensures
        s1.refresh.engine is Cooldown,
        s1.refresh.engine->until >= now1,
        s1.refresh.last_error == Some(err),
        s1.current_forecast == s0.current_forecast,
        now2 < s1.refresh.engine->until ==> s2 == s1 && emitted2.len() == 0 && effects2.len() == 0,
{
}

} // verus!
