//! End-to-end tests of the observation extractor over whole feed documents.

use rannikkoasemat::fmi_api::parse_latest_weather_data;

fn feed(body: &str) -> String {
    format!("<wfs:FeatureCollection>{}</wfs:FeatureCollection>", body)
}

fn sample(time: &str, name: &str, value: &str) -> String {
    format!(
        "<wfs:member><BsWfs:BsWfsElement>\
         <BsWfs:Time>{}</BsWfs:Time>\
         <BsWfs:ParameterName>{}</BsWfs:ParameterName>\
         <BsWfs:ParameterValue>{}</BsWfs:ParameterValue>\
         </BsWfs:BsWfsElement></wfs:member>",
        time, name, value
    )
}

#[test]
fn complete_feed_yields_observation() {
    let t = "2024-01-15T12:00:00Z";
    let body = format!(
        "{}{}{}{}",
        sample(t, "WindSpeedMS", "5.3"),
        sample(t, "Temperature", "-2.5"),
        sample(t, "WindDirection", "270.0"),
        sample(t, "WindGust", "8.1"),
    );
    let data = parse_latest_weather_data(&feed(&body))
        .expect("document is well formed")
        .expect("all five fields are present");
    assert_eq!(data.time_of_observation, "15/01/2024 14:00:00");
    assert_eq!(data.wind_speed_meters_per_second, "5.3");
    assert_eq!(data.temperature_celsius, "-2.5");
    assert_eq!(data.wind_direction, "W");
    assert_eq!(data.wind_gust_speed_meters_per_second, "8.1");
}

#[test]
fn missing_gust_yields_no_observation() {
    let t = "2024-01-15T12:00:00Z";
    let body = format!(
        "{}{}{}",
        sample(t, "WindSpeedMS", "5.3"),
        sample(t, "Temperature", "-2.5"),
        sample(t, "WindDirection", "270.0"),
    );
    let result = parse_latest_weather_data(&feed(&body)).expect("document is well formed");
    assert!(result.is_none());
}

#[test]
fn missing_timestamp_yields_no_observation() {
    let body = "\
        <BsWfs:ParameterName>WindSpeedMS</BsWfs:ParameterName>\
        <BsWfs:ParameterValue>5.3</BsWfs:ParameterValue>\
        <BsWfs:ParameterName>Temperature</BsWfs:ParameterName>\
        <BsWfs:ParameterValue>1.0</BsWfs:ParameterValue>\
        <BsWfs:ParameterName>WindDirection</BsWfs:ParameterName>\
        <BsWfs:ParameterValue>90</BsWfs:ParameterValue>\
        <BsWfs:ParameterName>WindGust</BsWfs:ParameterName>\
        <BsWfs:ParameterValue>7.0</BsWfs:ParameterValue>";
    let result = parse_latest_weather_data(&feed(body)).expect("document is well formed");
    assert!(result.is_none());
}

#[test]
fn unparseable_timestamp_is_skipped() {
    let body = format!(
        "{}{}{}{}{}",
        sample("not-a-time", "WindSpeedMS", "5.3"),
        sample("2024-01-15T12:00:00Z", "Temperature", "-2.5"),
        sample("also bad", "WindDirection", "270.0"),
        sample("worse", "WindGust", "8.1"),
        "",
    );
    let data = parse_latest_weather_data(&feed(&body))
        .expect("document is well formed")
        .expect("the one good timestamp fills the slot");
    assert_eq!(data.time_of_observation, "15/01/2024 14:00:00");
}

#[test]
fn later_sample_wins() {
    let body = format!(
        "{}{}{}{}{}",
        sample("2024-03-30T10:00:00Z", "WindSpeedMS", "4.0"),
        sample("2024-03-30T10:10:00Z", "Temperature", "1.0"),
        sample("2024-03-30T10:20:00Z", "Temperature", "2.0"),
        sample("2024-03-30T10:30:00Z", "WindDirection", "0"),
        sample("2024-03-30T10:40:00Z", "WindGust", "6.0"),
    );
    let data = parse_latest_weather_data(&feed(&body))
        .expect("document is well formed")
        .expect("all five fields are present");
    // The second temperature sample, later in the document, is the one kept.
    assert_eq!(data.temperature_celsius, "2.0");
    // Likewise the last timestamp seen is the observation time.
    assert_eq!(data.time_of_observation, "30/03/2024 12:40:00");
}

#[test]
fn invalid_direction_between_valid_ones_does_not_clobber() {
    let t = "2024-01-15T12:00:00Z";
    let body = format!(
        "{}{}{}{}{}{}",
        sample(t, "WindSpeedMS", "5.3"),
        sample(t, "Temperature", "-2.5"),
        sample(t, "WindGust", "8.1"),
        sample(t, "WindDirection", "90.0"),
        sample(t, "WindDirection", "NaN"),
        sample(t, "WindDirection", "180.0"),
    );
    let data = parse_latest_weather_data(&feed(&body))
        .expect("document is well formed")
        .expect("all five fields are present");
    // The last valid sample wins; the invalid one neither clobbers nor discards.
    assert_eq!(data.wind_direction, "S");
}

#[test]
fn invalid_direction_after_valid_one_keeps_the_valid_one() {
    let t = "2024-01-15T12:00:00Z";
    let body = format!(
        "{}{}{}{}{}",
        sample(t, "WindSpeedMS", "5.3"),
        sample(t, "Temperature", "-2.5"),
        sample(t, "WindGust", "8.1"),
        sample(t, "WindDirection", "90.0"),
        sample(t, "WindDirection", "NaN"),
    );
    let data = parse_latest_weather_data(&feed(&body))
        .expect("document is well formed")
        .expect("all five fields are present");
    assert_eq!(data.wind_direction, "E");
}

#[test]
fn unrecognized_parameter_is_discarded() {
    let t = "2024-01-15T12:00:00Z";
    let body = format!(
        "{}{}",
        sample(t, "Humidity", "93"),
        sample(t, "Visibility", "20000"),
    );
    let result = parse_latest_weather_data(&feed(&body)).expect("document is well formed");
    assert!(result.is_none());
}

#[test]
fn value_before_any_parameter_name_is_discarded() {
    let t = "2024-01-15T12:00:00Z";
    let body = format!(
        "<BsWfs:ParameterValue>99</BsWfs:ParameterValue>{}{}{}{}",
        sample(t, "WindSpeedMS", "5.3"),
        sample(t, "Temperature", "-2.5"),
        sample(t, "WindDirection", "270.0"),
        sample(t, "WindGust", "8.1"),
    );
    let data = parse_latest_weather_data(&feed(&body))
        .expect("document is well formed")
        .expect("all five fields are present");
    assert_eq!(data.wind_speed_meters_per_second, "5.3");
}

#[test]
fn unrecognized_name_clears_the_context() {
    // After "Humidity", the next value may not land in the wind-speed slot.
    let t = "2024-01-15T12:00:00Z";
    let body = format!(
        "{}<BsWfs:ParameterName>Humidity</BsWfs:ParameterName>\
         <BsWfs:ParameterValue>93</BsWfs:ParameterValue>{}{}{}",
        sample(t, "WindSpeedMS", "5.3"),
        sample(t, "Temperature", "-2.5"),
        sample(t, "WindDirection", "270.0"),
        sample(t, "WindGust", "8.1"),
    );
    let data = parse_latest_weather_data(&feed(&body))
        .expect("document is well formed")
        .expect("all five fields are present");
    assert_eq!(data.wind_speed_meters_per_second, "5.3");
}

#[test]
fn winter_timestamp_gets_standard_offset() {
    let t = "2024-01-15T12:00:00Z";
    let body = format!(
        "{}{}{}{}",
        sample(t, "WindSpeedMS", "5.3"),
        sample(t, "Temperature", "-2.5"),
        sample(t, "WindDirection", "270.0"),
        sample(t, "WindGust", "8.1"),
    );
    let data = parse_latest_weather_data(&feed(&body))
        .expect("document is well formed")
        .expect("all five fields are present");
    // Helsinki is UTC+2 in January.
    assert_eq!(data.time_of_observation, "15/01/2024 14:00:00");
}

#[test]
fn summer_timestamp_gets_daylight_offset() {
    let t = "2024-07-15T12:00:00Z";
    let body = format!(
        "{}{}{}{}",
        sample(t, "WindSpeedMS", "5.3"),
        sample(t, "Temperature", "21.5"),
        sample(t, "WindDirection", "270.0"),
        sample(t, "WindGust", "8.1"),
    );
    let data = parse_latest_weather_data(&feed(&body))
        .expect("document is well formed")
        .expect("all five fields are present");
    // Helsinki is UTC+3 in July: one hour later than the winter localization.
    assert_eq!(data.time_of_observation, "15/07/2024 15:00:00");
}

#[test]
fn malformed_document_reports_error() {
    let result = parse_latest_weather_data("<wfs:FeatureCollection></oops>");
    assert!(result.is_err());
}

#[test]
fn mismatched_nested_tags_report_error() {
    let result = parse_latest_weather_data("<a><b>5</a></b>");
    assert!(result.is_err());
}

#[test]
fn empty_document_yields_no_observation_without_error() {
    let result = parse_latest_weather_data("").expect("empty input is not malformed");
    assert!(result.is_none());
}

#[test]
fn padded_element_text_is_trimmed() {
    let body = "\
        <BsWfs:Time>\n  2024-01-15T12:00:00Z\n</BsWfs:Time>\
        <BsWfs:ParameterName>\n  WindSpeedMS\n</BsWfs:ParameterName>\
        <BsWfs:ParameterValue> 5.3 </BsWfs:ParameterValue>\
        <BsWfs:ParameterName>Temperature</BsWfs:ParameterName>\
        <BsWfs:ParameterValue>1.0</BsWfs:ParameterValue>\
        <BsWfs:ParameterName>WindDirection</BsWfs:ParameterName>\
        <BsWfs:ParameterValue>45</BsWfs:ParameterValue>\
        <BsWfs:ParameterName>WindGust</BsWfs:ParameterName>\
        <BsWfs:ParameterValue>7.0</BsWfs:ParameterValue>";
    let data = parse_latest_weather_data(&feed(body))
        .expect("document is well formed")
        .expect("all five fields are present");
    assert_eq!(data.wind_speed_meters_per_second, "5.3");
    assert_eq!(data.wind_direction, "NE");
    assert_eq!(data.time_of_observation, "15/01/2024 14:00:00");
}

#[test]
fn leading_byte_order_mark_is_discarded() {
    let t = "2024-01-15T12:00:00Z";
    let body = format!(
        "{}{}{}{}",
        sample(t, "WindSpeedMS", "5.3"),
        sample(t, "Temperature", "-2.5"),
        sample(t, "WindDirection", "270.0"),
        sample(t, "WindGust", "8.1"),
    );
    let doc = format!("\u{feff}{}", feed(&body));
    let data = parse_latest_weather_data(&doc)
        .expect("document is well formed")
        .expect("all five fields are present");
    assert_eq!(data.wind_direction, "W");
}

#[test]
fn same_document_gives_the_same_observation() {
    let t = "2024-07-15T12:00:00Z";
    let body = format!(
        "{}{}{}{}",
        sample(t, "WindSpeedMS", "5.3"),
        sample(t, "Temperature", "21.5"),
        sample(t, "WindDirection", "45"),
        sample(t, "WindGust", "8.1"),
    );
    let doc = feed(&body);
    let first = parse_latest_weather_data(&doc)
        .expect("document is well formed")
        .expect("all five fields are present");
    let second = parse_latest_weather_data(&doc)
        .expect("document is well formed")
        .expect("all five fields are present");
    assert_eq!(first.time_of_observation, second.time_of_observation);
    assert_eq!(first.wind_speed_meters_per_second, second.wind_speed_meters_per_second);
    assert_eq!(first.temperature_celsius, second.temperature_celsius);
    assert_eq!(first.wind_direction, second.wind_direction);
    assert_eq!(first.wind_gust_speed_meters_per_second, second.wind_gust_speed_meters_per_second);
}
