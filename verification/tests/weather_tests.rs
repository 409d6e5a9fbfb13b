use cosmic_wallpaper::weather::{
    condition_label, poll_interval_ms, weather_effects, WeatherCondition, WeatherMotion,
    WeatherSchedule, WeatherWatcher, DAY_MS, RETRY_MS,
};

fn wmo_cases() -> Vec<(u32, WeatherCondition)> {
    vec![
        (0, WeatherCondition::Clear),
        (1, WeatherCondition::PartlyCloudy),
        (2, WeatherCondition::PartlyCloudy),
        (3, WeatherCondition::Cloudy),
        (4, WeatherCondition::PartlyCloudy),  // Default case
        (44, WeatherCondition::PartlyCloudy), // Default case
        (45, WeatherCondition::Fog),
        (46, WeatherCondition::PartlyCloudy), // Default case
        (48, WeatherCondition::Fog),
        (50, WeatherCondition::PartlyCloudy), // Default case
        (51, WeatherCondition::Rain),
        (60, WeatherCondition::Rain),
        (67, WeatherCondition::Rain),
        (68, WeatherCondition::PartlyCloudy), // Default case
        (71, WeatherCondition::Snow),
        (75, WeatherCondition::Snow),
        (77, WeatherCondition::Snow),
        (78, WeatherCondition::PartlyCloudy), // Default case
        (80, WeatherCondition::Rain),
        (82, WeatherCondition::Rain),
        (83, WeatherCondition::PartlyCloudy), // Default case
        (85, WeatherCondition::Snow),
        (86, WeatherCondition::Snow),
        (87, WeatherCondition::PartlyCloudy), // Default case
        (95, WeatherCondition::Thunderstorm),
        (99, WeatherCondition::Thunderstorm),
        (100, WeatherCondition::PartlyCloudy), // Default case
    ]
}

#[test]
fn weather_test_wmo_code_to_condition() {
    for (code, expected) in wmo_cases() {
        assert_eq!(
            WeatherWatcher::wmo_code_to_condition(code),
            expected,
            "WMO code {} should map to {:?}",
            code,
            expected
        );
    }
}

#[test]
fn tests_test_wmo_code_to_condition() {
    for (code, expected) in wmo_cases() {
        assert_eq!(
            WeatherWatcher::wmo_code_to_condition(code),
            expected,
            "WMO code {} should map to {:?}",
            code,
            expected
        );
    }
}

#[test]
fn poll_interval_is_at_least_a_minute() {
    assert_eq!(poll_interval_ms(0), 60_000);
    assert_eq!(poll_interval_ms(1), 60_000);
    assert_eq!(poll_interval_ms(30), 1_800_000);
}

#[test]
fn enabled_watcher_fetches_at_start_then_waits_an_interval() {
    let t0 = DAY_MS * 2;
    let mut s = WeatherSchedule::new(true, t0);
    assert!(s.begin_cycle(true, false, 30, t0));
    s.finish_fetch(true, t0);
    assert_eq!(s.sleep_ms(t0), 1_800_000);
    assert!(!s.begin_cycle(true, false, 30, t0 + 1_799_999));
    assert!(s.begin_cycle(true, false, 30, t0 + 1_800_000));
}

#[test]
fn failed_fetch_is_retried_after_a_minute() {
    let t0 = DAY_MS * 2;
    let mut s = WeatherSchedule::new(true, t0);
    assert!(s.begin_cycle(true, false, 30, t0));
    s.finish_fetch(false, t0);
    assert_eq!(s.sleep_ms(t0), RETRY_MS as u128);
    assert!(!s.begin_cycle(true, false, 30, t0 + RETRY_MS - 1));
    assert!(s.begin_cycle(true, false, 30, t0 + RETRY_MS));
}

#[test]
fn disabled_watcher_sleeps_a_day_and_enabling_fetches_at_once() {
    let t0 = DAY_MS * 2;
    let mut s = WeatherSchedule::new(false, t0);
    assert!(!s.begin_cycle(false, false, 30, t0));
    assert_eq!(s.sleep_ms(t0), DAY_MS as u128);
    s.finish_fetch(true, t0);
    assert!(s.begin_cycle(true, false, 30, t0 + 1));
    s.finish_fetch(true, t0 + 1);
    // Moving the location forces a fetch too.
    assert!(s.begin_cycle(true, true, 30, t0 + 2));
}

#[test]
fn precipitation_drives_particles_and_sky() {
    let rain = weather_effects(true, false, Some(WeatherCondition::Rain));
    assert!(rain.active);
    assert_eq!((rain.particles, rain.weather_type), (800, 2));
    assert_eq!(rain.motion, Some(WeatherMotion::Pouring));
    let storm = weather_effects(true, false, Some(WeatherCondition::Thunderstorm));
    assert_eq!((storm.particles, storm.weather_type), (1500, 2));
    let snow = weather_effects(true, false, Some(WeatherCondition::Snow));
    assert_eq!((snow.particles, snow.weather_type), (2500, 3));
    assert_eq!(snow.motion, Some(WeatherMotion::Drifting));
}

#[test]
fn hidden_or_dry_weather_only_tints_the_sky() {
    let hidden = weather_effects(true, true, Some(WeatherCondition::Snow));
    assert!(!hidden.active);
    assert_eq!((hidden.particles, hidden.weather_type, hidden.motion), (0, 3, None));
    let fog = weather_effects(true, false, Some(WeatherCondition::Fog));
    assert!(!fog.active);
    assert_eq!(fog.weather_type, 1);
    let none = weather_effects(true, false, None);
    assert_eq!((none.active, none.weather_type), (false, 0));
    let off = weather_effects(false, false, Some(WeatherCondition::Rain));
    assert!(!off.active);
    assert_eq!(off.weather_type, 2);
}

#[test]
fn condition_labels() {
    assert_eq!(condition_label(WeatherCondition::Clear), "Clear");
    assert_eq!(condition_label(WeatherCondition::PartlyCloudy), "Partly Cloudy");
    assert_eq!(condition_label(WeatherCondition::Thunderstorm), "Thunderstorm");
    assert_eq!(condition_label(WeatherCondition::Fog), "Fog");
}
