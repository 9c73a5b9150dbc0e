use rain::forecast::{ForecastSnapshot, HistoricalForecast};
use rain::location::{Location, NameError, StoreError};
use rain::provider::{provider_query, rehydrate_event, FORECAST_URL};
use rain::refresh::{cooldown_until, EngineState, ProviderError, BACKOFF_SECS};
use rain::state::{AppEvent, AppData, Effect};

const HOME_HASH: &str = "9q8yyk8ytpxr";

fn snapshot(temp: &str, at: &str) -> ForecastSnapshot {
    ForecastSnapshot::new(
        format!("{{\"current\":{{\"temperature_2m\":{}}}}}", temp),
        at.to_string(),
    )
}

fn home(id: i64) -> Location {
    Location::new(id, "Home".to_string(), HOME_HASH.to_string())
}

fn fetch_count(effects: &[Effect]) -> usize {
    effects.iter().filter(|e| matches!(e, Effect::Fetch { .. })).count()
}

fn fetching_state(now: u64) -> AppData {
    let mut s = AppData::new();
    let effects = s.process(vec![AppEvent::SelectLocation(home(1))], now);
    assert_eq!(fetch_count(&effects), 1);
    s
}

#[test]
fn new_state_is_idle_with_auto_refresh() {
    let s = AppData::new();
    assert!(s.selected_location.is_none());
    assert!(s.current_forecast.is_none());
    assert!(s.refresh.auto_refresh_enabled);
    assert_eq!(s.refresh.engine, EngineState::Idle);
    assert!(s.known_locations.is_empty());
}

#[test]
fn empty_name_submission_persists_nothing() {
    let mut s = AppData::new();
    let effects = s.process(
        vec![
            AppEvent::SetDraftGeohash("9q8yy".to_string()),
            AppEvent::SubmitDraft,
        ],
        10,
    );
    assert!(effects.is_empty());
    let errs = s.pending_form.validation_errors.unwrap();
    assert_eq!(errs.name, Some(NameError::Empty));
    assert_eq!(errs.geohash, None);
    assert!(!s.pending_form.submitting);
}

#[test]
fn confirmed_location_is_saved_selected_and_fetched() {
    let mut s = AppData::new();
    let effects = s.process(
        vec![
            AppEvent::SetDraftName("Home".to_string()),
            AppEvent::SetDraftGeohash(HOME_HASH.to_string()),
            AppEvent::SubmitDraft,
        ],
        100,
    );
    assert_eq!(effects.len(), 1);
    match &effects[0] {
        Effect::SaveLocation(n) => {
            assert_eq!(n.name, "Home");
            assert_eq!(n.geohash, HOME_HASH);
        }
        other => panic!("unexpected effect {:?}", other),
    }
    assert!(s.pending_form.submitting);

    // The store kept it under id 1.
    let effects = s.process(vec![AppEvent::LocationSaved(home(1))], 101);
    assert_eq!(s.selected_location.as_ref().unwrap().name, "Home");
    assert!(s.pending_form.name.is_empty() && !s.pending_form.submitting);
    assert_eq!(effects.len(), 1);
    match &effects[0] {
        Effect::Fetch { location_id, geohash } => {
            assert_eq!(*location_id, 1);
            assert_eq!(geohash, HOME_HASH);
        }
        other => panic!("unexpected effect {:?}", other),
    }
    assert_eq!(s.refresh.engine, EngineState::Fetching { location_id: 1 });
    assert_eq!(s.refresh.last_attempt, Some(101));

    // The stub provider answers.
    let effects = s.process(vec![AppEvent::FetchSucceeded(snapshot("71.5", "t1"))], 102);
    assert_eq!(s.refresh.engine, EngineState::Idle);
    let f = s.current_forecast.as_ref().unwrap();
    let v: serde_json::Value = serde_json::from_str(&f.response).unwrap();
    assert_eq!(v["current"]["temperature_2m"].as_f64(), Some(71.5));
    assert_eq!(f.fetched_at, "t1");
    assert_eq!(effects.len(), 1);
    match &effects[0] {
        Effect::SaveForecast { location_id, snapshot } => {
            assert_eq!(*location_id, 1);
            assert_eq!(snapshot.response, f.response);
        }
        other => panic!("unexpected effect {:?}", other),
    }
}

#[test]
fn failed_fetch_backs_off_and_keeps_forecast() {
    let mut s = fetching_state(1000);
    s.process(vec![AppEvent::FetchSucceeded(snapshot("50", "t0"))], 1001);
    s.process(vec![AppEvent::RefreshForecast], 1030);
    assert!(s.refresh.is_fetching());
    let effects = s.process(vec![AppEvent::FetchFailed(ProviderError::Transport)], 1031);
    assert!(effects.is_empty());
    assert_eq!(s.refresh.engine, EngineState::Cooldown { until: 1031 + BACKOFF_SECS });
    assert_eq!(s.refresh.last_error, Some(ProviderError::Transport));
    assert_eq!(s.current_forecast.as_ref().unwrap().fetched_at, "t0");

    // A tick before the back-off ends does nothing.
    let effects = s.process(vec![AppEvent::Timer], 1031 + BACKOFF_SECS - 1);
    assert!(effects.is_empty());
    assert_eq!(s.refresh.engine, EngineState::Cooldown { until: 1031 + BACKOFF_SECS });

    // A refresh request during back-off is dropped too.
    assert!(s.process(vec![AppEvent::RefreshForecast], 1040).is_empty());

    // The tick at its end returns to idle; the next one fetches.
    assert!(s.process(vec![AppEvent::Timer], 1031 + BACKOFF_SECS).is_empty());
    assert_eq!(s.refresh.engine, EngineState::Idle);
    let effects = s.process(vec![AppEvent::Timer], 1031 + BACKOFF_SECS + 30);
    assert_eq!(fetch_count(&effects), 1);
}

#[test]
fn rehydration_seeds_forecast_before_one_refresh() {
    let mut s = AppData::new();
    let record = HistoricalForecast {
        id: 4,
        location_id: 1,
        response: "{\"current\":{\"temperature_2m\":60.1}}".to_string(),
        timestamp: "2024-05-01 10:00:00 UTC".to_string(),
    };
    let (emitted, effects) = s.dispatch(AppEvent::Rehydrate(Some(home(1)), Some(record)), 5);
    assert!(effects.is_empty());
    assert_eq!(emitted.len(), 1);
    assert!(matches!(emitted[0], AppEvent::RefreshForecast));
    let f = s.current_forecast.as_ref().unwrap();
    assert_eq!(f.fetched_at, "2024-05-01 10:00:00 UTC");
    assert_eq!(f.response, "{\"current\":{\"temperature_2m\":60.1}}");
    assert_eq!(s.selected_location.as_ref().unwrap().id, 1);
}

#[test]
fn rehydration_through_the_queue_fetches_once() {
    let mut s = AppData::new();
    let record = HistoricalForecast {
        id: 4,
        location_id: 1,
        response: "{}".to_string(),
        timestamp: "then".to_string(),
    };
    let ev = rehydrate_event(Ok(home(1)), Ok(record));
    let effects = s.process(vec![ev], 5);
    assert_eq!(effects.len(), 1);
    assert_eq!(fetch_count(&effects), 1);
    assert_eq!(s.current_forecast.as_ref().unwrap().fetched_at, "then");
}

#[test]
fn rehydration_with_an_empty_store_still_refreshes_once() {
    let mut s = AppData::new();
    let ev = rehydrate_event(
        Err(StoreError { message: "none".to_string() }),
        Err(StoreError { message: "none".to_string() }),
    );
    let (emitted, effects) = s.dispatch(ev, 5);
    assert!(effects.is_empty());
    assert_eq!(emitted.len(), 1);
    assert!(s.selected_location.is_none() && s.current_forecast.is_none());
}

#[test]
fn record_of_another_location_is_not_seeded() {
    let mut s = AppData::new();
    let record = HistoricalForecast {
        id: 4,
        location_id: 2,
        response: "{}".to_string(),
        timestamp: "then".to_string(),
    };
    s.dispatch(AppEvent::Rehydrate(Some(home(1)), Some(record)), 5);
    assert!(s.current_forecast.is_none());
}

#[test]
fn many_triggers_start_one_fetch() {
    let mut s = AppData::new();
    s.process(vec![AppEvent::LocationsLoaded(Ok(vec![home(1)]))], 0);
    let mut events = vec![AppEvent::SelectLocation(home(1))];
    for _ in 0..10 {
        events.push(AppEvent::RefreshForecast);
        events.push(AppEvent::Timer);
    }
    let effects = s.process(events, 50);
    assert_eq!(fetch_count(&effects), 1);
    // Nothing more while it is in flight.
    let effects = s.process(vec![AppEvent::Timer, AppEvent::RefreshForecast, AppEvent::SelectLocation(home(1))], 60);
    assert_eq!(fetch_count(&effects), 0);
    assert!(s.refresh.is_fetching());
}

#[test]
fn set_forecast_twice_does_not_accumulate() {
    let mut s = AppData::new();
    s.process(vec![AppEvent::SetForecast(snapshot("1", "a"))], 0);
    s.process(vec![AppEvent::SetForecast(snapshot("2", "b")), AppEvent::SetForecast(snapshot("2", "b"))], 1);
    let f = s.current_forecast.as_ref().unwrap();
    assert_eq!(f.fetched_at, "b");
    assert_eq!(f.response, snapshot("2", "b").response);
}

#[test]
fn snapshot_record_round_trip() {
    let s = snapshot("88.2", "2024-07-04 12:00:00 UTC");
    let rec = s.to_record(9, 3);
    assert_eq!(rec.id, 9);
    assert_eq!(rec.location_id, 3);
    assert_eq!(rec.timestamp, "2024-07-04 12:00:00 UTC");
    let back = ForecastSnapshot::from_record(&rec);
    assert_eq!(back.response, s.response);
    assert_eq!(back.fetched_at, s.fetched_at);
    let c = back.copy();
    assert_eq!(c.response, s.response);
}

#[test]
fn toggling_auto_refresh_stops_timer_fetches() {
    let mut s = AppData::new();
    s.dispatch(AppEvent::SelectLocation(home(1)), 0);
    s.process(vec![AppEvent::ToggleAutoRefresh], 0);
    assert!(!s.refresh.auto_refresh_enabled);
    assert!(s.process(vec![AppEvent::Timer], 30).is_empty());
    // A manual refresh still fetches.
    assert_eq!(fetch_count(&s.process(vec![AppEvent::RefreshForecast], 31)), 1);
}

#[test]
fn refresh_without_decodable_selection_is_a_no_op() {
    let mut s = AppData::new();
    assert!(s.process(vec![AppEvent::RefreshForecast, AppEvent::Timer], 0).is_empty());
    let bad = Location::new(2, "Bad".to_string(), "aaaa".to_string());
    assert!(s.process(vec![AppEvent::SelectLocation(bad)], 1).is_empty());
    assert_eq!(s.refresh.engine, EngineState::Idle);
}

#[test]
fn stray_fetch_outcomes_are_ignored() {
    let mut s = AppData::new();
    assert!(s.process(vec![AppEvent::FetchSucceeded(snapshot("3", "x"))], 0).is_empty());
    assert!(s.current_forecast.is_none());
    assert!(s.process(vec![AppEvent::FetchFailed(ProviderError::Malformed)], 0).is_empty());
    assert_eq!(s.refresh.engine, EngineState::Idle);
    assert_eq!(s.refresh.last_error, None);
}

#[test]
fn store_failure_on_save_is_shown_in_the_form() {
    let mut s = AppData::new();
    s.process(
        vec![
            AppEvent::SetDraftName("Home".to_string()),
            AppEvent::SetDraftGeohash(HOME_HASH.to_string()),
            AppEvent::SubmitDraft,
        ],
        0,
    );
    // A second submit while the first is stored is dropped.
    assert!(s.process(vec![AppEvent::SubmitDraft], 0).is_empty());
    s.process(vec![AppEvent::LocationSaveFailed("disk full".to_string())], 1);
    assert_eq!(s.pending_form.error_message.as_deref(), Some("disk full"));
    assert!(!s.pending_form.submitting);
    assert_eq!(s.pending_form.name, "Home");
    assert!(s.selected_location.is_none());
}

#[test]
fn draft_edits_revalidate() {
    let mut s = AppData::new();
    s.process(vec![AppEvent::SetDraftName("Home".to_string())], 0);
    let errs = s.pending_form.validation_errors.unwrap();
    assert_eq!(errs.name, None);
    assert_eq!(errs.geohash, Some(rain::geocode::GeohashError::Empty));
    s.process(vec![AppEvent::SetDraftGeohash("9q8yy".to_string())], 0);
    assert!(s.pending_form.validation_errors.is_none());
}

#[test]
fn loaded_locations_replace_the_list() {
    let mut s = AppData::new();
    s.process(vec![AppEvent::LocationsLoaded(Ok(vec![home(1), home(2)]))], 0);
    assert_eq!(s.known_locations.len(), 2);
    s.process(vec![AppEvent::LocationsLoaded(Err(StoreError { message: "gone".to_string() }))], 0);
    assert!(s.known_locations.is_empty());
}

#[test]
fn cooldown_end_saturates() {
    assert_eq!(cooldown_until(10), 10 + BACKOFF_SECS);
    assert_eq!(cooldown_until(u64::MAX - 1), u64::MAX);
}

#[test]
fn provider_query_is_fixed() {
    let q = provider_query();
    assert_eq!(q.len(), 10);
    assert!(q.contains(&("temperature_unit", "fahrenheit")));
    assert!(q.contains(&("wind_speed_unit", "mph")));
    assert!(q.contains(&("precipitation_unit", "inch")));
    assert!(q.contains(&("forecast_days", "1")));
    assert!(q.contains(&("forecast_hours", "24")));
    assert!(q.contains(&("past_hours", "24")));
    assert_eq!(q[0].1.split(',').count(), 15);
    assert_eq!(q[1].1.split(',').count(), 11);
    assert_eq!(q[2].1.split(',').count(), 11);
    assert!(FORECAST_URL.starts_with("https://"));
}
