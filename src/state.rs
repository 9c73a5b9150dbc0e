//! The application state and its transition function.
use vstd::prelude::*;
use crate::forecast::{snapshot_of, ForecastSnapshot, HistoricalForecast};
use crate::geocode::is_valid_geohash;
use crate::location::{
    confirm_fields, draft_errors, draft_is_valid, is_blank_draft, validate_fields, FormDraft,
    Location, NewLocation, StoreError, ValidationErrorSet,
};
use crate::refresh::{cooldown_end, cooldown_until, EngineState, ProviderError, RefreshStatus};

verus! {

/// The single mutable root of the application.
#[derive(Debug)]
pub struct AppData {
    pub selected_location: Option<Location>,
    pub current_forecast: Option<ForecastSnapshot>,
    pub refresh: RefreshStatus,
    pub pending_form: FormDraft,
    /// The saved locations, as last loaded from the store.
    pub known_locations: Vec<Location>,
}

/// What can happen to the application.
#[derive(Debug)]
pub enum AppEvent {
    /// Replace the current forecast.
    SetForecast(ForecastSnapshot),
    /// Make this location the selected one; a refresh follows.
    SelectLocation(Location),
    /// Store a new location with this name and geohash, if they are valid.
    ConfirmLocation(String, String),
    /// Fetch a forecast for the selected location, if the engine is idle.
    RefreshForecast,
    ToggleAutoRefresh,
    /// A tick of the periodic timer.
    Timer,
    /// The provider answered the fetch in flight.
    FetchSucceeded(ForecastSnapshot),
    /// The fetch in flight failed.
    FetchFailed(ProviderError),
    /// What the store held at start: the latest location and its latest forecast.
    Rehydrate(Option<Location>, Option<HistoricalForecast>),
    /// The store kept a confirmed location under this id.
    LocationSaved(Location),
    /// The store could not keep a confirmed location.
    LocationSaveFailed(String),
    /// The store's answer to a request for the saved locations.
    LocationsLoaded(Result<Vec<Location>, StoreError>),
    SetDraftName(String),
    SetDraftGeohash(String),
    /// Submit the form in progress.
    SubmitDraft,
}

/// Work that the program around the library performs; its outcome comes back as an event.
#[derive(Debug)]
pub enum Effect {
    /// Ask the weather provider for a forecast at this geohash.
    Fetch { location_id: i64, geohash: String },
    /// Append the snapshot to the store's forecast history (its failure is only logged).
    SaveForecast { location_id: i64, snapshot: ForecastSnapshot },
    /// Store a new location.
    SaveLocation(NewLocation),
}

/// Whether an event reports the end of a fetch.
pub open spec fn is_completion(e: AppEvent) -> bool {
    e is FetchSucceeded || e is FetchFailed
}

/// The errors a draft shows after a field edit: none when it is valid.
pub open spec fn errors_after_edit(name: Seq<char>, hash: Seq<char>) -> Option<ValidationErrorSet> {
    if draft_is_valid(name, hash) {
        None
    } else {
        Some(draft_errors(name, hash))
    }
}

/// The location a refresh fetches for, when there is one with decodable coordinates.
pub open spec fn can_fetch(s: AppData) -> bool {
    &&& s.refresh.engine is Idle
    &&& s.selected_location is Some
    &&& is_valid_geohash(s.selected_location->Some_0.geohash@)
}

/// The forecast that rehydration seeds: the record's, when both were found and belong together.
pub open spec fn rehydrated_forecast(
    pre: Option<ForecastSnapshot>,
    loc: Option<Location>,
    rec: Option<HistoricalForecast>,
) -> Option<ForecastSnapshot> {
    if loc is Some && rec is Some && rec->Some_0.location_id == loc->Some_0.id {
        Some(snapshot_of(rec->Some_0))
    } else {
        pre
    }
}

/// Handling event `e` at time `now` takes state `pre` to `post`, emits the follow-up
/// events `emitted` and asks for `effects`.
pub open spec fn transition(
    pre: AppData,
    e: AppEvent,
    now: u64,
    post: AppData,
    emitted: Seq<AppEvent>,
    effects: Seq<Effect>,
) -> bool {
    match e {
        AppEvent::SetForecast(x) => {
            &&& post == AppData { current_forecast: Some(x), ..pre }
            &&& emitted == Seq::<AppEvent>::empty()
            &&& effects == Seq::<Effect>::empty()
        },
        AppEvent::SelectLocation(loc) => {
            &&& post == AppData { selected_location: Some(loc), ..pre }
            &&& emitted == seq![AppEvent::RefreshForecast]
            &&& effects == Seq::<Effect>::empty()
        },
        AppEvent::ConfirmLocation(name, hash) => {
            &&& emitted == Seq::<AppEvent>::empty()
            &&& if draft_is_valid(name@, hash@) {
                &&& post == AppData {
                    pending_form: FormDraft {
                        submitting: true,
                        validation_errors: None,
                        error_message: None,
                        ..pre.pending_form
                    },
                    ..pre
                }
                &&& effects == seq![Effect::SaveLocation(NewLocation { name, geohash: hash })]
            } else {
                &&& post == AppData {
                    pending_form: FormDraft {
                        validation_errors: Some(draft_errors(name@, hash@)),
                        ..pre.pending_form
                    },
                    ..pre
                }
                &&& effects == Seq::<Effect>::empty()
            }
        },
        AppEvent::RefreshForecast => {
            &&& emitted == Seq::<AppEvent>::empty()
            &&& if can_fetch(pre) {
                let loc = pre.selected_location->Some_0;
                &&& post == AppData {
                    refresh: RefreshStatus {
                        engine: EngineState::Fetching { location_id: loc.id },
                        last_attempt: Some(now),
                        ..pre.refresh
                    },
                    ..pre
                }
                &&& effects == seq![Effect::Fetch { location_id: loc.id, geohash: loc.geohash }]
            } else {
                &&& post == pre
                &&& effects == Seq::<Effect>::empty()
            }
        },
        AppEvent::ToggleAutoRefresh => {
            &&& post == AppData {
                refresh: RefreshStatus {
                    auto_refresh_enabled: !pre.refresh.auto_refresh_enabled,
                    ..pre.refresh
                },
                ..pre
            }
            &&& emitted == Seq::<AppEvent>::empty()
            &&& effects == Seq::<Effect>::empty()
        },
        AppEvent::Timer => {
            &&& effects == Seq::<Effect>::empty()
            &&& match pre.refresh.engine {
                EngineState::Idle => {
                    &&& post == pre
                    &&& emitted == if pre.refresh.auto_refresh_enabled {
                        seq![AppEvent::RefreshForecast]
                    } else {
                        Seq::<AppEvent>::empty()
                    }
                },
                EngineState::Cooldown { until } => {
                    &&& emitted == Seq::<AppEvent>::empty()
                    &&& if now >= until {
                        post == AppData {
                            refresh: RefreshStatus { engine: EngineState::Idle, ..pre.refresh },
                            ..pre
                        }
                    } else {
                        post == pre
                    }
                },
                EngineState::Fetching { .. } => {
                    &&& post == pre
                    &&& emitted == Seq::<AppEvent>::empty()
                },
            }
        },
        AppEvent::FetchSucceeded(x) => match pre.refresh.engine {
            EngineState::Fetching { location_id } => {
                &&& post == AppData {
                    refresh: RefreshStatus {
                        engine: EngineState::Idle,
                        last_error: None,
                        ..pre.refresh
                    },
                    ..pre
                }
                &&& emitted == seq![AppEvent::SetForecast(x)]
                &&& effects == seq![Effect::SaveForecast { location_id, snapshot: x }]
            },
            _ => {
                &&& post == pre
                &&& emitted == Seq::<AppEvent>::empty()
                &&& effects == Seq::<Effect>::empty()
            },
        },
        AppEvent::FetchFailed(err) => {
            &&& emitted == Seq::<AppEvent>::empty()
            &&& effects == Seq::<Effect>::empty()
            &&& if pre.refresh.engine is Fetching {
                post == AppData {
                    refresh: RefreshStatus {
                        engine: EngineState::Cooldown { until: cooldown_end(now) },
                        last_error: Some(err),
                        ..pre.refresh
                    },
                    ..pre
                }
            } else {
                post == pre
            }
        },
        AppEvent::Rehydrate(loc, rec) => {
            &&& post == AppData {
                selected_location: if loc is Some {
                    loc
                } else {
                    pre.selected_location
                },
                current_forecast: rehydrated_forecast(pre.current_forecast, loc, rec),
                ..pre
            }
            &&& emitted == seq![AppEvent::RefreshForecast]
            &&& effects == Seq::<Effect>::empty()
        },
        AppEvent::LocationSaved(loc) => {
            &&& is_blank_draft(post.pending_form)
            &&& post == AppData { pending_form: post.pending_form, ..pre }
            &&& emitted == seq![AppEvent::SelectLocation(loc)]
            &&& effects == Seq::<Effect>::empty()
        },
        AppEvent::LocationSaveFailed(msg) => {
            &&& post == AppData {
                pending_form: FormDraft {
                    submitting: false,
                    error_message: Some(msg),
                    ..pre.pending_form
                },
                ..pre
            }
            &&& emitted == Seq::<AppEvent>::empty()
            &&& effects == Seq::<Effect>::empty()
        },
        AppEvent::LocationsLoaded(loaded) => {
            &&& post.known_locations@ == match loaded {
                Ok(v) => v@,
                Err(_) => Seq::<Location>::empty(),
            }
            &&& post == AppData { known_locations: post.known_locations, ..pre }
            &&& emitted == Seq::<AppEvent>::empty()
            &&& effects == Seq::<Effect>::empty()
        },
        AppEvent::SetDraftName(name) => {
            &&& post == AppData {
                pending_form: FormDraft {
                    name,
                    validation_errors: errors_after_edit(name@, pre.pending_form.geohash@),
                    ..pre.pending_form
                },
                ..pre
            }
            &&& emitted == Seq::<AppEvent>::empty()
            &&& effects == Seq::<Effect>::empty()
        },
        AppEvent::SetDraftGeohash(hash) => {
            &&& post == AppData {
                pending_form: FormDraft {
                    geohash: hash,
                    validation_errors: errors_after_edit(pre.pending_form.name@, hash@),
                    ..pre.pending_form
                },
                ..pre
            }
            &&& emitted == Seq::<AppEvent>::empty()
            &&& effects == Seq::<Effect>::empty()
        },
        AppEvent::SubmitDraft => {
            &&& post == pre
            &&& effects == Seq::<Effect>::empty()
            &&& emitted == if pre.pending_form.submitting {
                Seq::<AppEvent>::empty()
            } else {
                seq![AppEvent::ConfirmLocation(pre.pending_form.name, pre.pending_form.geohash)]
            }
        },
    }
}

impl AppData {
    /// Nothing selected, no forecast, automatic refresh on and an empty form.
    pub fn new() -> (r: AppData)
        ensures
            r.selected_location is None,
            r.current_forecast is None,
            r.refresh == RefreshStatus::spec_initial(),
            is_blank_draft(r.pending_form),
            r.known_locations@.len() == 0,
    {
        AppData {
            selected_location: None,
            current_forecast: None,
            refresh: RefreshStatus::new(),
            pending_form: FormDraft::new(),
            known_locations: Vec::new(),
        }
    }

    /// Handles one event at time `now`: applies its change to the state and returns
    /// the follow-up events and the effects it asks for.
    pub fn dispatch(&mut self, event: AppEvent, now: u64) -> (r: (Vec<AppEvent>, Vec<Effect>))
        ensures
            transition(*old(self), event, now, *final(self), r.0@, r.1@),
    {
        let mut emitted: Vec<AppEvent> = Vec::new();
        let mut effects: Vec<Effect> = Vec::new();
        match event {
            AppEvent::SetForecast(x) => {
                self.current_forecast = Some(x);
            },
            AppEvent::SelectLocation(loc) => {
                self.selected_location = Some(loc);
                emitted.push(AppEvent::RefreshForecast);
            },
            AppEvent::ConfirmLocation(name, hash) => {
                match confirm_fields(&name, &hash) {
                    Ok(new_location) => {
                        self.pending_form.submitting = true;
                        self.pending_form.validation_errors = None;
                        self.pending_form.error_message = None;
                        effects.push(Effect::SaveLocation(new_location));
                    },
                    Err(errors) => {
                        self.pending_form.validation_errors = Some(errors);
                    },
                }
            },
            AppEvent::RefreshForecast => {
                if let EngineState::Idle = self.refresh.engine {
                    match &self.selected_location {
                        Some(loc) => {
                            if loc.has_coordinates() {
                                let location_id = loc.id;
                                let geohash = loc.geohash.clone();
                                self.refresh.engine = EngineState::Fetching { location_id };
                                self.refresh.last_attempt = Some(now);
                                effects.push(Effect::Fetch { location_id, geohash });
                            }
                        },
                        None => {},
                    }
                }
            },
            AppEvent::ToggleAutoRefresh => {
                self.refresh.auto_refresh_enabled = !self.refresh.auto_refresh_enabled;
            },
            AppEvent::Timer => {
                match self.refresh.engine {
                    EngineState::Idle => {
                        if self.refresh.auto_refresh_enabled {
                            emitted.push(AppEvent::RefreshForecast);
                        }
                    },
                    EngineState::Cooldown { until } => {
                        if now >= until {
                            self.refresh.engine = EngineState::Idle;
                        }
                    },
                    EngineState::Fetching { .. } => {},
                }
            },
            AppEvent::FetchSucceeded(x) => {
                if let EngineState::Fetching { location_id } = self.refresh.engine {
                    self.refresh.engine = EngineState::Idle;
                    self.refresh.last_error = None;
                    let kept = x.copy();
                    effects.push(Effect::SaveForecast { location_id, snapshot: kept });
                    emitted.push(AppEvent::SetForecast(x));
                }
            },
            AppEvent::FetchFailed(err) => {
                if let EngineState::Fetching { .. } = self.refresh.engine {
                    self.refresh.engine = EngineState::Cooldown { until: cooldown_until(now) };
                    self.refresh.last_error = Some(err);
                }
            },
            AppEvent::Rehydrate(loc, rec) => {
                let seed = match (&loc, &rec) {
                    (Some(l), Some(h)) => l.id == h.location_id,
                    _ => false,
                };
                if seed {
                    match &rec {
                        Some(h) => {
                            self.current_forecast = Some(ForecastSnapshot::from_record(h));
                        },
                        None => {},
                    }
                }
                if loc.is_some() {
                    self.selected_location = loc;
                }
                emitted.push(AppEvent::RefreshForecast);
            },
            AppEvent::LocationSaved(loc) => {
                self.pending_form = FormDraft::new();
                emitted.push(AppEvent::SelectLocation(loc));
            },
            AppEvent::LocationSaveFailed(msg) => {
                self.pending_form.submitting = false;
                self.pending_form.error_message = Some(msg);
            },
            AppEvent::LocationsLoaded(loaded) => {
                self.known_locations = crate::location::locations_or_empty(loaded);
            },
            AppEvent::SetDraftName(name) => {
                let errors = validate_fields(name.as_str(), self.pending_form.geohash.as_str());
                self.pending_form.validation_errors = if errors.name.is_none()
                    && errors.geohash.is_none() {
                    None
                } else {
                    Some(errors)
                };
                self.pending_form.name = name;
            },
            AppEvent::SetDraftGeohash(hash) => {
                let errors = validate_fields(self.pending_form.name.as_str(), hash.as_str());
                self.pending_form.validation_errors = if errors.name.is_none()
                    && errors.geohash.is_none() {
                    None
                } else {
                    Some(errors)
                };
                self.pending_form.geohash = hash;
            },
            AppEvent::SubmitDraft => {
                if !self.pending_form.submitting {
                    emitted.push(
                        AppEvent::ConfirmLocation(
                            self.pending_form.name.clone(),
                            self.pending_form.geohash.clone(),
                        ),
                    );
                }
            },
        }
        (emitted, effects)
    }
}

} // verus!
