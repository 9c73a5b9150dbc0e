//! Forecast snapshots and the records that keep them in the store.
use vstd::prelude::*;

verus! {

/// One complete provider response, as the text the provider sent, and when it was fetched.
#[derive(Debug)]
pub struct ForecastSnapshot {
    pub response: String,
    pub fetched_at: String,
}

/// A stored snapshot: the store's id for it, the location it belongs to,
/// the response text and the time of the fetch.
#[derive(Debug)]
pub struct HistoricalForecast {
    pub id: i64,
    pub location_id: i64,
    pub response: String,
    pub timestamp: String,
}

/// The record that keeps `s` for location `location_id` under store id `id`.
pub open spec fn record_of(s: ForecastSnapshot, id: i64, location_id: i64) -> HistoricalForecast {
    HistoricalForecast { id, location_id, response: s.response, timestamp: s.fetched_at }
}

/// The snapshot that a stored record holds.
pub open spec fn snapshot_of(r: HistoricalForecast) -> ForecastSnapshot {
    ForecastSnapshot { response: r.response, fetched_at: r.timestamp }
}

impl ForecastSnapshot {
    pub fn new(response: String, fetched_at: String) -> (r: ForecastSnapshot)
        ensures
            r == (ForecastSnapshot { response, fetched_at }),
    {
        ForecastSnapshot { response, fetched_at }
    }

    /// A copy equal to `self`.
    pub fn copy(&self) -> (r: ForecastSnapshot)
        ensures
            r == *self,
    {
        ForecastSnapshot { response: self.response.clone(), fetched_at: self.fetched_at.clone() }
    }

    /// The record that keeps this snapshot for a location.
    pub fn to_record(&self, id: i64, location_id: i64) -> (r: HistoricalForecast)
        ensures
            r == record_of(*self, id, location_id),
    {
        HistoricalForecast {
            id,
            location_id,
            response: self.response.clone(),
            timestamp: self.fetched_at.clone(),
        }
    }

    /// The snapshot kept in a record, with the time it was fetched.
    pub fn from_record(record: &HistoricalForecast) -> (r: ForecastSnapshot)
        ensures
            r == snapshot_of(*record),
    {
        ForecastSnapshot { response: record.response.clone(), fetched_at: record.timestamp.clone() }
    }
}

/// A snapshot written to the store and read back is the same snapshot, whatever
/// id the store gave the record.
pub proof fn lemma_record_round_trip(s: ForecastSnapshot, id: i64, location_id: i64)
    ensures
        snapshot_of(record_of(s, id, location_id)) == s,
        record_of(s, id, location_id).location_id == location_id,
{
}

} // verus!
