use cosmic_weather_applet::applet::{location_found, Action, Coordinate, IpGeolocation, Message, Weather};
use cosmic_weather_applet::config::{current_icon, icon_for_hour, MOON_ICON, SUN_ICON};
use cosmic_weather_applet::geolocation::CitySearchResult;

fn start() -> Weather {
    let (w, first) = Weather::init("52.5".to_string(), "13.4".to_string(), false);
    assert!(matches!(first, Message::Tick));
    w
}

fn coord(text: &str, zero: bool) -> Coordinate {
    Coordinate { text: text.to_string(), is_zero: zero }
}

fn city() -> CitySearchResult {
    CitySearchResult {
        name: "Tokyo".to_string(),
        latitude: "35.6768601".to_string(),
        longitude: "139.7638947".to_string(),
        display_name: "Tokyo, Japan".to_string(),
        score: 80,
    }
}

#[test]
fn icons_follow_the_hour() {
    assert_eq!(icon_for_hour(0), MOON_ICON);
    assert_eq!(icon_for_hour(5), MOON_ICON);
    assert_eq!(icon_for_hour(6), SUN_ICON);
    assert_eq!(icon_for_hour(12), SUN_ICON);
    assert_eq!(icon_for_hour(17), SUN_ICON);
    assert_eq!(icon_for_hour(18), MOON_ICON);
    assert_eq!(icon_for_hour(23), MOON_ICON);
    let now = current_icon();
    assert!(now == SUN_ICON || now == MOON_ICON);
}

#[test]
fn initial_state() {
    let w = start();
    assert_eq!(w.popup, None);
    assert_eq!(w.latitude_input, "52.5");
    assert_eq!(w.longitude_input, "13.4");
    assert!(!w.use_fahrenheit);
    assert_eq!(w.location_status, "Enter coordinates manually or detect automatically");
    assert!(w.city_search_input.is_empty());
    assert!(w.city_search_results.is_empty());
}

#[test]
fn tick_refreshes_only() {
    let mut w = start();
    let a = w.update(Message::Tick);
    assert!(matches!(a.as_slice(), [Action::RefreshWeather]));
    assert_eq!(w.latitude_input, "52.5");
    let a = w.update(Message::UpdateTemperature);
    assert!(a.is_empty());
}

#[test]
fn toggle_twice_opens_then_closes() {
    let mut w = start();
    let a = w.update(Message::TogglePopup { new_popup: 7, has_main_window: true });
    assert!(matches!(a.as_slice(), [Action::CreatePopup(7)]));
    assert_eq!(w.popup, Some(7));
    let a = w.update(Message::TogglePopup { new_popup: 8, has_main_window: true });
    assert!(matches!(a.as_slice(), [Action::DestroyPopup(7)]));
    assert_eq!(w.popup, None);
}

#[test]
fn toggle_without_main_window_records_popup_only() {
    let mut w = start();
    let a = w.update(Message::TogglePopup { new_popup: 3, has_main_window: false });
    assert!(a.is_empty());
    assert_eq!(w.popup, Some(3));
}

#[test]
fn close_popup() {
    let mut w = start();
    assert!(w.update(Message::ClosePopup).is_empty());
    w.update(Message::TogglePopup { new_popup: 1, has_main_window: true });
    let a = w.update(Message::ClosePopup);
    assert!(matches!(a.as_slice(), [Action::DestroyPopup(1)]));
    assert_eq!(w.popup, None);
}

#[test]
fn inputs_and_unit() {
    let mut w = start();
    assert!(w.update(Message::LatitudeInput("1.5".to_string())).is_empty());
    assert!(w.update(Message::LongitudeInput("-2.5".to_string())).is_empty());
    assert!(w.update(Message::ToggleTemperatureUnit(true)).is_empty());
    assert_eq!(w.latitude_input, "1.5");
    assert_eq!(w.longitude_input, "-2.5");
    assert!(w.use_fahrenheit);
}

#[test]
fn save_refused_when_coordinates_do_not_read() {
    let mut w = start();
    w.update(Message::TogglePopup { new_popup: 4, has_main_window: true });
    let a = w.update(Message::SaveConfig { coordinates_valid: false });
    assert!(a.is_empty());
    assert_eq!(w.popup, Some(4));
}

#[test]
fn save_writes_refreshes_and_closes() {
    let mut w = start();
    w.update(Message::ToggleTemperatureUnit(true));
    w.update(Message::TogglePopup { new_popup: 4, has_main_window: true });
    let a = w.update(Message::SaveConfig { coordinates_valid: true });
    assert!(matches!(
        a.as_slice(),
        [Action::WriteConfig { use_fahrenheit: true }, Action::RefreshWeather, Action::DestroyPopup(4)]
    ));
    assert_eq!(w.popup, None);
    let a = w.update(Message::SaveConfig { coordinates_valid: true });
    assert!(matches!(a.as_slice(), [Action::WriteConfig { use_fahrenheit: true }, Action::RefreshWeather]));
}

#[test]
fn locating() {
    let mut w = start();
    let a = w.update(Message::GetCurrentLocation);
    assert!(matches!(a.as_slice(), [Action::LocateByIp]));
    assert_eq!(w.location_status, "Getting location...");
    let found = location_found(Some(IpGeolocation {
        latitude: coord("48.8534", false),
        longitude: coord("2.3488", false),
        city: "Paris".to_string(),
        region: "Île-de-France".to_string(),
        country: "FR".to_string(),
    }));
    assert!(w.update(found).is_empty());
    assert_eq!(w.latitude_input, "48.8534");
    assert_eq!(w.longitude_input, "2.3488");
    assert_eq!(w.location_status, "Found: Paris, Île-de-France");
}

#[test]
fn failed_location_keeps_inputs() {
    let mut w = start();
    let msg = location_found(None);
    match &msg {
        Message::LocationFound(label, lat, lon) => {
            assert_eq!(label, "Location detection failed");
            assert!(lat.is_zero && lon.is_zero);
            assert_eq!(lat.text, "0");
        }
        _ => panic!("unexpected message"),
    }
    w.update(msg);
    assert_eq!(w.latitude_input, "52.5");
    assert_eq!(w.location_status, "Location detection failed");
}

#[test]
fn zero_coordinate_is_not_taken() {
    let mut w = start();
    w.update(Message::LocationFound("Null Island".to_string(), coord("0", true), coord("5", false)));
    assert_eq!(w.latitude_input, "52.5");
    assert_eq!(w.location_status, "Null Island");
}

#[test]
fn search_input_and_results() {
    let mut w = start();
    let a = w.update(Message::CitySearchInput("tok".to_string()));
    match a.as_slice() {
        [Action::SearchCities(q)] => assert_eq!(q, "tok"),
        _ => panic!("expected one search"),
    }
    assert_eq!(w.city_search_input, "tok");
    assert!(w.update(Message::CitySearchResults(vec![city()])).is_empty());
    assert_eq!(w.city_search_results.len(), 1);
    let a = w.update(Message::CitySearchInput("tokyo".to_string()));
    assert_eq!(a.len(), 1);
    assert_eq!(w.city_search_results.len(), 1);
    let a = w.update(Message::CitySearchInput("  ".to_string()));
    assert!(a.is_empty());
    assert_eq!(w.city_search_input, "  ");
    assert!(w.city_search_results.is_empty());
}

#[test]
fn select_city() {
    let mut w = start();
    w.update(Message::CitySearchInput("tok".to_string()));
    w.update(Message::CitySearchResults(vec![city()]));
    assert!(w.update(Message::SelectCity(city())).is_empty());
    assert_eq!(w.latitude_input, "35.6768601");
    assert_eq!(w.longitude_input, "139.7638947");
    assert_eq!(w.location_status, "Selected: Tokyo, Japan");
    assert!(w.city_search_input.is_empty());
    assert!(w.city_search_results.is_empty());
}
