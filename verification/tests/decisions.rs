use skywallpaper::calendar::{gap_step, GapStep, LocalLookup};
use skywallpaper::config::{LanguagePref, LocationMode};
use skywallpaper::geo::{PlaceHit, WeatherError};
use skywallpaper::offscreen::TargetCache;
use skywallpaper::settings::{settings_action, SettingsAction, SettingsMessage};
use skywallpaper::weather_map::WeatherCode;
use skywallpaper::worker::{
    decimal_text, startup_location, wants_ip_location, weather_refresh, StartupLocation, WeatherRefresh,
};

fn hit(index: usize, label: &str) -> PlaceHit {
    PlaceHit { index, label: label.to_string() }
}

#[test]
fn first_search_hit_overrides_the_location() {
    let hits = vec![hit(2, "Paris, Île-de-France, France"), hit(5, "Paris, Texas, United States")];
    assert_eq!(
        settings_action(SettingsMessage::Search(Ok(hits))),
        SettingsAction::Locate {
            hit: 2,
            mode: LocationMode::Manual,
            status: "Paris, Île-de-France, France".to_string(),
        }
    );
}

#[test]
fn empty_or_failed_search_only_shows_ellipsis() {
    assert_eq!(
        settings_action(SettingsMessage::Search(Ok(Vec::new()))),
        SettingsAction::Status("…".to_string())
    );
    assert_eq!(
        settings_action(SettingsMessage::Search(Err(WeatherError::NoResults))),
        SettingsAction::Status("…".to_string())
    );
    assert_eq!(
        settings_action(SettingsMessage::Search(Err(WeatherError::Network("timeout".to_string())))),
        SettingsAction::Status("…".to_string())
    );
}

#[test]
fn ip_request_relocates_or_reports() {
    assert_eq!(
        settings_action(SettingsMessage::UseIp(Ok("Berlin, Germany".to_string()))),
        SettingsAction::LocateFromIp { status: "Berlin, Germany".to_string() }
    );
    assert_eq!(
        settings_action(SettingsMessage::UseIp(Err(WeatherError::Parse("eof".to_string())))),
        SettingsAction::Status("parse: eof".to_string())
    );
    assert_eq!(
        settings_action(SettingsMessage::UseIp(Err(WeatherError::NoResults))),
        SettingsAction::Status("no results".to_string())
    );
}

#[test]
fn other_settings_messages_map_one_to_one() {
    assert_eq!(
        settings_action(SettingsMessage::Query("Oslo".to_string())),
        SettingsAction::SetQuery("Oslo".to_string())
    );
    assert_eq!(
        settings_action(SettingsMessage::Lang(LanguagePref::Zh)),
        SettingsAction::SetLanguage(LanguagePref::Zh)
    );
    assert_eq!(settings_action(SettingsMessage::Autostart(true)), SettingsAction::SetAutostart(true));
    assert_eq!(
        settings_action(SettingsMessage::PauseFullscreen(false)),
        SettingsAction::SetPauseOnFullscreen(false)
    );
    assert_eq!(settings_action(SettingsMessage::TogglePause), SettingsAction::TogglePause);
    assert_eq!(settings_action(SettingsMessage::RefreshWeather), SettingsAction::RefreshWeather);
}

#[test]
fn decimal_text_of_bytes() {
    assert_eq!(decimal_text(0), "0");
    assert_eq!(decimal_text(7), "7");
    assert_eq!(decimal_text(10), "10");
    assert_eq!(decimal_text(95), "95");
    assert_eq!(decimal_text(100), "100");
    assert_eq!(decimal_text(255), "255");
}

#[test]
fn weather_refresh_applies_or_falls_back() {
    assert_eq!(
        weather_refresh(&Ok(WeatherCode(95))),
        WeatherRefresh::Apply { status: "WMO 95".to_string() }
    );
    assert_eq!(
        weather_refresh(&Ok(WeatherCode(0))),
        WeatherRefresh::Apply { status: "WMO 0".to_string() }
    );
    assert_eq!(
        weather_refresh(&Err(WeatherError::Network("dns".to_string()))),
        WeatherRefresh::Fallback { status: "weather fallback: network: dns".to_string() }
    );
    assert_eq!(
        weather_refresh(&Err(WeatherError::NoResults)),
        WeatherRefresh::Fallback { status: "weather fallback: no results".to_string() }
    );
}

#[test]
fn startup_lookup_only_in_ip_mode() {
    assert!(wants_ip_location(LocationMode::Ip));
    assert!(!wants_ip_location(LocationMode::Manual));
    assert_eq!(startup_location(&Ok(())), StartupLocation::Locate);
    assert_eq!(
        startup_location(&Err(WeatherError::Network("refused".to_string()))),
        StartupLocation::Keep("IP: network: refused".to_string())
    );
}

#[test]
fn clock_gaps_step_forward_an_hour_at_most_three_times() {
    assert_eq!(gap_step(0, 1_000, LocalLookup::Unique(5_000)), GapStep::Done(5_000));
    assert_eq!(gap_step(2, 1_000, LocalLookup::Ambiguous(4_000)), GapStep::Done(4_000));
    assert_eq!(gap_step(0, 1_000, LocalLookup::Gap), GapStep::Retry(4_600));
    assert_eq!(gap_step(2, 1_000, LocalLookup::Gap), GapStep::Retry(4_600));
    assert_eq!(gap_step(3, 1_000, LocalLookup::Gap), GapStep::GiveUp);
    assert_eq!(gap_step(0, i64::MAX - 10, LocalLookup::Gap), GapStep::GiveUp);
}

fn sizes(cache: &TargetCache<(u32, u32)>) -> Vec<(u32, u32, (u32, u32))> {
    (0..cache.len()).map(|i| {
        let t = cache.get(i);
        (t.width, t.height, t.payload)
    }).collect()
}

#[test]
fn one_target_per_surface_size() {
    let mut cache: TargetCache<(u32, u32)> = TargetCache::new();
    let a = cache.ensure(1920, 1080, |w, h| (w / 4, h / 4));
    let b = cache.ensure(2560, 1440, |w, h| (w / 4, h / 4));
    let again = cache.ensure(1920, 1080, |_, _| (0, 0));
    assert_eq!((a, b, again), (0, 1, 0));
    assert_eq!(sizes(&cache), vec![(1920, 1080, (480, 270)), (2560, 1440, (640, 360))]);
}

#[test]
fn frame_without_overlay_drops_targets() {
    let mut cache: TargetCache<(u32, u32)> = TargetCache::new();
    assert_eq!(cache.prepare_frame(true, 800, 600, |w, h| (w, h)), Some(0));
    assert_eq!(cache.prepare_frame(true, 800, 600, |_, _| (1, 1)), Some(0));
    assert_eq!(sizes(&cache), vec![(800, 600, (800, 600))]);
    assert_eq!(cache.prepare_frame(false, 800, 600, |w, h| (w, h)), None);
    assert_eq!(cache.len(), 0);
}

#[test]
fn zero_width_surface_is_looked_up_by_its_own_size() {
    let mut cache: TargetCache<(u32, u32)> = TargetCache::new();
    assert_eq!(cache.ensure(0, 5, |w, h| (w, h)), 0);
    assert_eq!(cache.ensure(0, 5, |w, h| (w, h)), 1);
    assert_eq!(sizes(&cache), vec![(1, 5, (1, 5)), (1, 5, (1, 5))]);
}
