//! The fixed request made to the weather provider, and the startup answers of the store.
use vstd::prelude::*;
use crate::forecast::HistoricalForecast;
use crate::location::{Location, StoreError};
use crate::state::AppEvent;

verus! {

/// The provider's forecast endpoint.
pub const FORECAST_URL: &'static str = "https://api.open-meteo.com/v1/forecast";

/// The query parameters of every forecast request, besides the coordinates.
pub open spec fn query_params() -> Seq<(&'static str, &'static str)> {
    seq![
        ("current", "temperature_2m,relative_humidity_2m,apparent_temperature,is_day,precipitation,rain,showers,snowfall,weather_code,cloud_cover,pressure_msl,surface_pressure,wind_speed_10m,wind_direction_10m,wind_gusts_10m"),
        ("hourly", "temperature_2m,relative_humidity_2m,dew_point_2m,precipitation_probability,precipitation,rain,showers,snowfall,weather_code,visibility,wind_gusts_10m"),
        ("daily", "weather_code,temperature_2m_max,temperature_2m_min,sunrise,sunset,daylight_duration,uv_index_max,precipitation_sum,rain_sum,snowfall_sum,precipitation_probability_max"),
        ("temperature_unit", "fahrenheit"),
        ("wind_speed_unit", "mph"),
        ("precipitation_unit", "inch"),
        ("timezone", "America/New_York"),
        ("forecast_days", "1"),
        ("forecast_hours", "24"),
        ("past_hours", "24"),
    ]
}

/// The query parameters of every forecast request, besides the coordinates.
pub fn provider_query() -> (r: Vec<(&'static str, &'static str)>)
    ensures
        r@ == query_params(),
{
    let mut q: Vec<(&'static str, &'static str)> = Vec::new();
    q.push(("current", "temperature_2m,relative_humidity_2m,apparent_temperature,is_day,precipitation,rain,showers,snowfall,weather_code,cloud_cover,pressure_msl,surface_pressure,wind_speed_10m,wind_direction_10m,wind_gusts_10m"));
    q.push(("hourly", "temperature_2m,relative_humidity_2m,dew_point_2m,precipitation_probability,precipitation,rain,showers,snowfall,weather_code,visibility,wind_gusts_10m"));
    q.push(("daily", "weather_code,temperature_2m_max,temperature_2m_min,sunrise,sunset,daylight_duration,uv_index_max,precipitation_sum,rain_sum,snowfall_sum,precipitation_probability_max"));
    q.push(("temperature_unit", "fahrenheit"));
    q.push(("wind_speed_unit", "mph"));
    q.push(("precipitation_unit", "inch"));
    q.push(("timezone", "America/New_York"));
    q.push(("forecast_days", "1"));
    q.push(("forecast_hours", "24"));
    q.push(("past_hours", "24"));
    proof {
        assert(q@ =~= query_params());
    }
    q
}

/// The event that starts the application from what the store held: the latest
/// location and its latest forecast record, each left out when the store had none.
pub fn rehydrate_event(
    location: Result<Location, StoreError>,
    record: Result<HistoricalForecast, StoreError>,
) -> (r: AppEvent)
    ensures
        r == AppEvent::Rehydrate(
            match location {
                Ok(l) => Some(l),
                Err(_) => None,
            },
            match record {
                Ok(h) => Some(h),
                Err(_) => None,
            },
        ),
{
    AppEvent::Rehydrate(location.ok(), record.ok())
}

} // verus!
