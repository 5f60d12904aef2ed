use cosmic_weather_applet::geolocation::{
    city_name, rank_matches, search_cities, search_url, should_search, CitySearchResult,
    NominatimAddress, NominatimResult,
};
use cosmic_weather_applet::ranking::sort_results_by_score;
use cosmic_weather_applet::text::{first_segment_of, is_blank};

fn hit(display: &str, lat: &str, lon: &str, address: Option<NominatimAddress>) -> NominatimResult {
    NominatimResult {
        display_name: display.to_string(),
        lat: lat.to_string(),
        lon: lon.to_string(),
        address,
    }
}

fn address(city: Option<&str>, town: Option<&str>, village: Option<&str>) -> NominatimAddress {
    NominatimAddress {
        city: city.map(|s| s.to_string()),
        town: town.map(|s| s.to_string()),
        village: village.map(|s| s.to_string()),
        state: None,
        country: None,
    }
}

fn item(name: &str, score: i64) -> CitySearchResult {
    CitySearchResult {
        name: name.to_string(),
        latitude: "1".to_string(),
        longitude: "2".to_string(),
        display_name: name.to_string(),
        score,
    }
}

#[test]
fn blank_texts() {
    assert!(is_blank(""));
    assert!(is_blank("   \t\n"));
    assert!(is_blank("\u{3000}\u{00A0}\u{2028}"));
    assert!(!is_blank(" a "));
    assert!(!is_blank("\u{200B}"));
    assert!(!should_search("  "));
    assert!(should_search(" new york "));
}

#[test]
fn first_segment_stops_at_comma() {
    assert_eq!(first_segment_of("New York, NY, USA"), "New York");
    assert_eq!(first_segment_of("Tokyo"), "Tokyo");
    assert_eq!(first_segment_of(",x"), "");
    assert_eq!(first_segment_of(""), "");
    assert_eq!(first_segment_of("Zürich, Schweiz"), "Zürich");
}

#[test]
fn city_name_prefers_city_then_town_then_village() {
    let h = hit("Portland, Oregon", "1", "2", Some(address(Some("Portland"), Some("T"), Some("V"))));
    assert_eq!(city_name(&h), "Portland");
    let h = hit("Portland, Oregon", "1", "2", Some(address(None, Some("Town"), Some("V"))));
    assert_eq!(city_name(&h), "Town");
    let h = hit("Portland, Oregon", "1", "2", Some(address(None, None, Some("Village"))));
    assert_eq!(city_name(&h), "Village");
    let h = hit("Portland, Oregon", "1", "2", Some(address(None, None, None)));
    assert_eq!(city_name(&h), "Portland");
    let h = hit("Paris, France", "1", "2", None);
    assert_eq!(city_name(&h), "Paris");
}

#[test]
fn search_url_encodes_query() {
    assert_eq!(
        search_url("new york"),
        "https://nominatim.openstreetmap.org/search?q=new%20york&format=json&limit=10&addressdetails=1"
    );
    assert_eq!(
        search_url("Zürich&x=1"),
        "https://nominatim.openstreetmap.org/search?q=Z%C3%BCrich%26x%3D1&format=json&limit=10&addressdetails=1"
    );
    assert_eq!(
        search_url("a-b_c.d~e"),
        "https://nominatim.openstreetmap.org/search?q=a-b_c.d~e&format=json&limit=10&addressdetails=1"
    );
}

#[test]
fn sort_is_descending_and_stable() {
    let items = vec![item("a", 1), item("b", 5), item("c", 3), item("d", 5), item("e", 1)];
    let sorted = sort_results_by_score(items);
    let names: Vec<&str> = sorted.iter().map(|r| r.name.as_str()).collect();
    assert_eq!(names, vec!["b", "d", "c", "a", "e"]);
}

#[test]
fn rank_keeps_matches_and_at_most_five() {
    let results: Vec<NominatimResult> = (0..8).map(|i| hit(&format!("P{}", i), "1", "2", None)).collect();
    let valid = vec![true, true, false, true, true, true, true, true];
    let scores = vec![Some(10), None, Some(99), Some(20), Some(5), Some(20), Some(1), Some(7)];
    let ranked = rank_matches(&results, &valid, &scores);
    let names: Vec<&str> = ranked.iter().map(|r| r.display_name.as_str()).collect();
    assert_eq!(names, vec!["P3", "P5", "P0", "P7", "P4"]);
    let got: Vec<i64> = ranked.iter().map(|r| r.score).collect();
    assert_eq!(got, vec![20, 20, 10, 7, 5]);
    assert_eq!(ranked[0].name, "P3");
    assert_eq!(ranked[0].latitude, "1");
    assert_eq!(ranked[0].longitude, "2");
}

#[test]
fn rank_with_nothing_matching() {
    let results = vec![hit("A", "1", "2", None)];
    let ranked = rank_matches(&results, &vec![false], &vec![Some(3)]);
    assert!(ranked.is_empty());
    let ranked = rank_matches(&results, &vec![true], &vec![None]);
    assert!(ranked.is_empty());
}

#[test]
fn blank_query_offers_nothing() {
    let results = vec![hit("New York", "40.7", "-74.0", None)];
    assert!(search_cities("   ", &results, &vec![true]).is_empty());
    assert!(search_cities("", &results, &vec![true]).is_empty());
}

#[test]
fn search_offers_fuzzy_matches_only() {
    let results = vec![
        hit("New York, United States", "40.7", "-74.0", Some(address(Some("New York"), None, None))),
        hit("Newark, New Jersey", "40.73", "-74.17", None),
        hit("Boston, Massachusetts", "42.36", "-71.05", None),
        hit("York, England", "53.96", "-1.08", None),
    ];
    let cities = search_cities("york", &results, &vec![true, true, true, false]);
    let names: Vec<&str> = cities.iter().map(|c| c.name.as_str()).collect();
    // Boston does not contain the letters of "york" in order; York has unusable coordinates.
    assert!(names.contains(&"New York"));
    assert!(!names.contains(&"Boston"));
    assert!(!names.contains(&"York"));
    for w in cities.windows(2) {
        assert!(w[0].score >= w[1].score);
    }
    assert!(cities.iter().all(|c| c.score > 0));
}

#[test]
fn search_respects_smart_case() {
    let results = vec![hit("new york", "1", "2", None), hit("New York", "1", "2", None)];
    let lower = search_cities("york", &results, &vec![true, true]);
    assert_eq!(lower.len(), 2);
    let upper = search_cities("York", &results, &vec![true, true]);
    assert_eq!(upper.len(), 1);
    assert_eq!(upper[0].display_name, "New York");
}

#[test]
fn few_matches_are_all_offered() {
    let results: Vec<NominatimResult> = (0..4).map(|i| hit(&format!("Q{}", i), "1", "2", None)).collect();
    let valid = vec![true, true, true, true];
    let scores = vec![Some(3), Some(9), None, Some(3)];
    let ranked = rank_matches(&results, &valid, &scores);
    let names: Vec<&str> = ranked.iter().map(|r| r.display_name.as_str()).collect();
    assert_eq!(names, vec!["Q1", "Q0", "Q3"]);
}
