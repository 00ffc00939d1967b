use skywallpaper::calendar::{checked_days_since_solstice, days_since_solstice, solstice_origin_year, time_of_day};
use skywallpaper::geo::{
    ip_place_label, search_language, search_url, select_places, IpReply, PlaceHit, RawPlace,
    WeatherError,
};
use skywallpaper::query::urlencoding;
use skywallpaper::weather_map::{preset_reading, PrecipKind, WeatherCode, WmoReading};

#[test]
fn thunder_profile_from_wmo_95() {
    let p = WeatherCode(95).profile();
    assert!(p.thunder);
    assert_eq!(p.precip_floor_milli, 400);
    assert_eq!(p.precip_kind, PrecipKind::Rain);
    assert_eq!(p.cloud_floor_milli, 550);
    assert!(!p.dry);
    assert_eq!(WeatherCode(99).profile().precip_floor_milli, 700);
}

#[test]
fn snow_profile_from_wmo_73() {
    let p = WeatherCode(73).profile();
    assert_eq!(p.precip_kind, PrecipKind::Snow);
    assert_eq!(p.cloud_floor_milli, 550);
    assert_eq!(p.precip_floor_milli, 550);
    assert_eq!(WeatherCode(85).profile().precip_kind, PrecipKind::Snow);
    assert_eq!(WeatherCode(78).profile().precip_kind, PrecipKind::Rain);
}

#[test]
fn clear_and_fog_profiles() {
    let clear = WeatherCode(0).profile();
    assert_eq!(clear.cloud_cap_milli, 200);
    assert_eq!(clear.cloud_floor_milli, 0);
    assert!(clear.dry && !clear.thunder && !clear.foggy);
    let overcast = WeatherCode(3).profile();
    assert!(overcast.dry);
    assert_eq!(overcast.cloud_floor_milli, 550);
    assert_eq!(overcast.cloud_cap_milli, 1000);
    assert!(WeatherCode(45).profile().foggy);
    assert!(WeatherCode(48).profile().foggy);
    assert_eq!(WeatherCode(45).profile().cloud_floor_milli, 0);
    assert_eq!(WeatherCode(100).profile().cloud_floor_milli, 0);
    assert_eq!(WeatherCode(51).profile().precip_floor_milli, 180);
    assert_eq!(WeatherCode(63).profile().precip_floor_milli, 650);
    assert_eq!(WeatherCode(67).profile().precip_floor_milli, 400);
    assert_eq!(WeatherCode(71).profile().precip_floor_milli, 250);
    assert_eq!(WeatherCode(2).profile().precip_floor_milli, 0);
}

#[test]
fn presets_name_observations() {
    assert_eq!(preset_reading("clear"), None);
    assert_eq!(preset_reading("nonsense"), None);
    assert_eq!(
        preset_reading("rain"),
        Some(WmoReading { code: 63, cloud_cover_pct: 95, precipitation_mm: 4, visibility_m: 8_000 })
    );
    assert_eq!(preset_reading("cloudy"), preset_reading("cloud"));
    assert_eq!(preset_reading("storm"), preset_reading("thunder"));
    assert_eq!(preset_reading("thunder").unwrap().code, 95);
    assert_eq!(preset_reading("fog").unwrap().visibility_m, 400);
    assert_eq!(preset_reading("snow").unwrap().code, 73);
}

#[test]
fn query_values_are_percent_encoded() {
    assert_eq!(urlencoding("Beijing"), "Beijing");
    assert_eq!(urlencoding("New York"), "New%20York");
    assert_eq!(urlencoding("a&b=c"), "a%26b%3Dc");
    assert_eq!(urlencoding("A-z_0.9~"), "A-z_0.9~");
    assert_eq!(urlencoding("é"), "%C3%A9");
    assert_eq!(urlencoding("北京"), "%E5%8C%97%E4%BA%AC");
    assert_eq!(urlencoding("😀"), "%F0%9F%98%80");
    assert_eq!(urlencoding(""), "");
}

#[test]
fn geocoder_request() {
    assert_eq!(search_language("zh-CN"), "zh");
    assert_eq!(search_language("zh"), "zh");
    assert_eq!(search_language("en"), "en");
    assert_eq!(search_language("z"), "en");
    assert_eq!(
        search_url("New York", "en"),
        "https://geocoding-api.open-meteo.com/v1/search?name=New%20York&count=6&language=en&format=json"
    );
    assert_eq!(
        search_url("上海", "zh"),
        "https://geocoding-api.open-meteo.com/v1/search?name=%E4%B8%8A%E6%B5%B7&count=6&language=zh&format=json"
    );
}

fn some(s: &str) -> Option<String> {
    Some(s.to_string())
}

fn place(name: Option<String>, admin1: Option<String>, country: Option<String>, lat: bool, lon: bool) -> RawPlace {
    RawPlace { name, admin1, country, has_latitude: lat, has_longitude: lon }
}

#[test]
fn geocoder_hits_are_labelled_and_filtered() {
    assert_eq!(select_places(&vec![]), Err(WeatherError::NoResults));
    let results = vec![
        place(some("Beijing"), some("Beijing"), some("China"), true, true),
        place(some("Springfield"), some("Illinois"), some("United States"), true, false),
        place(some("Springfield"), some("Missouri"), some("United States"), true, true),
        place(None, some(""), some("France"), true, true),
        place(some(""), None, None, true, true),
    ];
    let hits = select_places(&results).unwrap();
    assert_eq!(
        hits,
        vec![
            PlaceHit { index: 0, label: "Beijing, China".to_string() },
            PlaceHit { index: 2, label: "Springfield, Missouri, United States".to_string() },
            PlaceHit { index: 3, label: "France".to_string() },
            PlaceHit { index: 4, label: "".to_string() },
        ]
    );
    let none_usable = vec![place(some("x"), None, None, false, true)];
    assert_eq!(select_places(&none_usable), Ok(vec![]));
}

fn reply(success: Option<bool>, lat: bool, lon: bool, city: Option<String>, country: Option<String>) -> IpReply {
    IpReply { success, has_latitude: lat, has_longitude: lon, city, country }
}

#[test]
fn ip_location_label() {
    assert_eq!(
        ip_place_label(&reply(Some(true), true, true, some("Beijing"), some("China"))),
        Ok(Some("Beijing, China".to_string()))
    );
    assert_eq!(
        ip_place_label(&reply(None, true, true, None, some("China"))),
        Ok(Some("China".to_string()))
    );
    assert_eq!(ip_place_label(&reply(Some(true), true, true, some(""), None)), Ok(None));
    assert_eq!(
        ip_place_label(&reply(Some(false), true, true, some("Beijing"), None)),
        Err(WeatherError::NoResults)
    );
    assert_eq!(ip_place_label(&reply(Some(true), false, true, None, None)), Err(WeatherError::NoResults));
    assert_eq!(ip_place_label(&reply(Some(true), true, false, None, None)), Err(WeatherError::NoResults));
}

#[test]
fn weather_error_messages() {
    assert_eq!(WeatherError::Network("timeout".to_string()).message(), "network: timeout");
    assert_eq!(WeatherError::Parse("eof".to_string()).message(), "parse: eof");
    assert_eq!(WeatherError::NoResults.message(), "no results");
}

#[test]
fn season_days_count_from_the_last_solstice() {
    assert_eq!(solstice_origin_year(2024, 12, 21), 2024);
    assert_eq!(solstice_origin_year(2024, 12, 20), 2023);
    assert_eq!(solstice_origin_year(2024, 6, 21), 2023);
    assert_eq!(days_since_solstice(2024, 12, 21), 0);
    assert_eq!(days_since_solstice(2024, 6, 21), 183);
    assert_eq!(days_since_solstice(2024, 12, 20), 365);
    assert_eq!(days_since_solstice(2025, 1, 1), 11);
    assert_eq!(checked_days_since_solstice(2025, 3, 20), Some(89));
    assert_eq!(checked_days_since_solstice(2023, 2, 29), None);
    assert_eq!(checked_days_since_solstice(i32::MIN, 1, 1), None);
    assert_eq!(checked_days_since_solstice(2024, 13, 1), None);
}

#[test]
fn time_of_day_splits_and_clamps() {
    assert_eq!(time_of_day(0), (0, 0, 0));
    assert_eq!(time_of_day(3661), (1, 1, 1));
    assert_eq!(time_of_day(43_200), (12, 0, 0));
    assert_eq!(time_of_day(-5), (0, 0, 0));
    assert_eq!(time_of_day(86_400), (23, 59, 59));
    assert_eq!(time_of_day(i64::MAX), (23, 59, 59));
}

fn decode_percent(q: &str) -> String {
    let chars: Vec<char> = q.chars().collect();
    let mut bytes = Vec::new();
    let mut i = 0;
    while i < chars.len() {
        if chars[i] == '%' && i + 2 < chars.len() {
            let hex: String = chars[i + 1..i + 3].iter().collect();
            bytes.push(u8::from_str_radix(&hex, 16).unwrap());
            i += 3;
        } else {
            bytes.push(chars[i] as u8);
            i += 1;
        }
    }
    String::from_utf8(bytes).unwrap()
}

#[test]
fn encoded_queries_decode_back() {
    for text in ["Beijing", "New York", "北京市", "São Paulo", "a&b=c?d#e+f%g", "😀 ok", ""] {
        let encoded = urlencoding(text);
        assert!(encoded
            .chars()
            .all(|c| c.is_ascii_alphanumeric() || "-_.~%".contains(c)));
        assert_eq!(decode_percent(&encoded), text);
    }
}
