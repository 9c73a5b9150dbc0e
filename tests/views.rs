use rain::views::{lookup_weather_text, DataCell, WeatherCode, UNKNOWN_WEATHER};

#[test]
fn weather_text_covers_codes_zero_to_ninety_nine() {
    assert_eq!(lookup_weather_text(&0), Some("Cloud development not observed or not observable"));
    assert_eq!(lookup_weather_text(&45), Some("Fog or ice fog, sky invisible"));
    assert_eq!(lookup_weather_text(&99), Some("Thunderstorm, heavy, with hail at time of observation"));
    for code in 0..100 {
        assert!(lookup_weather_text(&code).is_some());
    }
    assert_eq!(lookup_weather_text(&100), None);
    assert_eq!(lookup_weather_text(&-1), None);
}

#[test]
fn weather_code_description() {
    assert_eq!(WeatherCode::new(5).description(), "Haze");
    assert_eq!(WeatherCode::new(5).weather_code(), 5);
    assert_eq!(WeatherCode::new(123).description(), UNKNOWN_WEATHER);
}

#[test]
fn data_cell_keeps_its_parts() {
    let c = DataCell::new("Wind".to_string(), "12".to_string(), "mph".to_string());
    assert_eq!(c.get_label(), "Wind");
    assert_eq!(c.get_info(), "12");
    assert_eq!(c.get_unit(), "mph");
}
