//! Tests of the station registry and its URL construction.

use rannikkoasemat::stations::{create_station_hashmap, create_weather_url, station_entries};

const URL_PREFIX: &str = "https://opendata.fmi.fi/wfs?service=WFS&version=2.0.0&request=getFeature&parameters=Temperature,WindDirection,WindSpeedMS,WindGust&storedquery_id=fmi::observations::weather::simple&fmisid=";

#[test]
fn weather_url_appends_the_station_id() {
    assert_eq!(create_weather_url(100947), format!("{}100947", URL_PREFIX));
    assert_eq!(create_weather_url(0), format!("{}0", URL_PREFIX));
    assert_eq!(create_weather_url(-12), format!("{}-12", URL_PREFIX));
}

#[test]
fn registry_maps_keys_to_locations() {
    let stations = create_station_hashmap();
    let rajakari = stations.get("rajakari").expect("rajakari is registered");
    assert_eq!(rajakari.display_name, "Turku Rajakari");
    assert_eq!(rajakari.url, format!("{}100947", URL_PREFIX));
    let harmaja = stations.get("harmaja").expect("harmaja is registered");
    assert_eq!(harmaja.display_name, "Helsinki Harmaja");
    assert_eq!(harmaja.url, format!("{}100996", URL_PREFIX));
}

#[test]
fn unknown_keys_are_absent() {
    let stations = create_station_hashmap();
    assert!(stations.get("atlantis").is_none());
    assert!(!stations.contains_key("atlantis"));
    assert!(stations.contains_key("uto"));
}

#[test]
fn entries_list_every_station_in_table_order() {
    let entries = station_entries();
    assert_eq!(entries.len(), 50);
    assert_eq!(entries[0].0, "rajakari");
    assert_eq!(entries[0].1, "Turku Rajakari");
    assert_eq!(entries[49].0, "seitalaassa");
    assert_eq!(entries[49].1, "Inari Seitalaassa");
    let stations = create_station_hashmap();
    for (key, name) in &entries {
        let location = stations.get(key).expect("every listed key is registered");
        assert_eq!(&location.display_name, name);
    }
}
