use watch_weather::codec::WeatherIcon;
use watch_weather::provider::{
    contains_str, display_name, filter_ownership_change, handle_for_service, icon_for_condition,
    is_known_service, map_icon_code, presence_from_lookup, providers_from_presence, str_eq,
    DiscoveryError, GenericWeatherProvider, ProviderEvent,
};

#[test]
fn contains_str_finds_substrings() {
    assert!(contains_str("scattered clouds", "cloud"));
    assert!(contains_str("rain", "rain"));
    assert!(contains_str("abc", ""));
    assert!(!contains_str("", "a"));
    assert!(!contains_str("cloud", "clouds"));
    assert!(contains_str("heavy intensity rain", "rain"));
    assert!(contains_str("n\u{e9}buleux", "buleux"));
}

#[test]
fn str_eq_compares_by_characters() {
    assert!(str_eq("org.kde.kweather", "org.kde.kweather"));
    assert!(!str_eq("org.kde.kweather", "org.kde.kweather2"));
    assert!(!str_eq("a", "b"));
    assert!(str_eq("", ""));
}

#[test]
fn icon_mapping_covers_every_keyword_group() {
    assert_eq!(map_icon_code("clear sky"), WeatherIcon::Sun);
    assert_eq!(map_icon_code("few clouds"), WeatherIcon::CloudsSun);
    assert_eq!(map_icon_code("scattered clouds"), WeatherIcon::Clouds);
    assert_eq!(map_icon_code("broken clouds"), WeatherIcon::BrokenClouds);
    assert_eq!(map_icon_code("shower drizzle"), WeatherIcon::CloudShowerHeavy);
    assert_eq!(map_icon_code("light rain"), WeatherIcon::CloudSunRain);
    assert_eq!(map_icon_code("thunder"), WeatherIcon::Thunderstorm);
    assert_eq!(map_icon_code("snow"), WeatherIcon::Snow);
    assert_eq!(map_icon_code("mist"), WeatherIcon::Smog);
    assert_eq!(map_icon_code("fog"), WeatherIcon::Smog);
}

#[test]
fn icon_mapping_lowercases_first() {
    // would fall back to the default icon if the code were not lowercased
    assert_eq!(map_icon_code("THUNDERSTORM"), WeatherIcon::Thunderstorm);
    assert_eq!(map_icon_code("Snow"), WeatherIcon::Snow);
}

#[test]
fn icon_mapping_defaults_to_sun() {
    assert_eq!(map_icon_code("???"), WeatherIcon::Sun);
    assert_eq!(map_icon_code(""), WeatherIcon::Sun);
}

#[test]
fn icon_mapping_group_order_decides() {
    // "heavy" is checked before "shower" and before "rain"
    assert_eq!(map_icon_code("heavy shower rain"), WeatherIcon::BrokenClouds);
    // "sun" is checked before "cloud"
    assert_eq!(icon_for_condition("sunny with clouds"), WeatherIcon::Sun);
    // "storm" matches anywhere in the code
    assert_eq!(map_icon_code("sandstorm"), WeatherIcon::Thunderstorm);
}

#[test]
fn known_services_are_the_closed_set() {
    assert!(is_known_service("org.kde.kweather"));
    assert!(is_known_service("org.gnome.Weather"));
    assert!(!is_known_service("org.example.weather"));
    assert!(!is_known_service(""));
}

#[test]
fn display_names() {
    assert_eq!(display_name("org.kde.kweather"), "KDE Weather");
    assert_eq!(display_name("org.gnome.Weather"), "GNOME Weather");
}

#[test]
fn ownership_change_to_owned_maps_to_added() {
    match filter_ownership_change("org.kde.kweather", true) {
        Some(ProviderEvent::Added(p)) => {
            assert_eq!(p.service_name, "org.kde.kweather");
            assert_eq!(p.name, "KDE Weather");
        }
        other => panic!("expected Added, got {:?}", other),
    }
}

#[test]
fn ownership_change_to_unowned_maps_to_removed() {
    match filter_ownership_change("org.gnome.Weather", false) {
        Some(ProviderEvent::Removed(s)) => assert_eq!(s, "org.gnome.Weather"),
        other => panic!("expected Removed, got {:?}", other),
    }
}

#[test]
fn ownership_change_of_unknown_service_is_ignored() {
    assert!(filter_ownership_change("org.freedesktop.Notifications", true).is_none());
    assert!(filter_ownership_change("org.freedesktop.Notifications", false).is_none());
}

#[test]
fn failed_lookup_counts_as_absent() {
    assert!(presence_from_lookup(&Ok(true)));
    assert!(!presence_from_lookup(&Ok(false)));
    assert!(!presence_from_lookup(&Err(DiscoveryError::BusUnavailable)));
}

#[test]
fn present_providers_in_fixed_order() {
    let both = providers_from_presence(true, true);
    assert_eq!(both.len(), 2);
    assert_eq!(both[0].service_name, "org.kde.kweather");
    assert_eq!(both[1].service_name, "org.gnome.Weather");
    let gnome_only = providers_from_presence(false, true);
    assert_eq!(gnome_only.len(), 1);
    assert_eq!(gnome_only[0].service_name, "org.gnome.Weather");
    assert_eq!(gnome_only[0].name, "GNOME Weather");
    assert!(providers_from_presence(false, false).is_empty());
}

#[test]
fn handle_for_service_carries_both_names() {
    let h = handle_for_service("org.kde.kweather");
    assert_eq!(h.service_name, "org.kde.kweather");
    assert_eq!(h.name, "KDE Weather");
}

#[test]
fn generic_provider_keeps_its_name() {
    let p = GenericWeatherProvider::new(String::from("KDE Weather"));
    assert_eq!(p.name(), "KDE Weather");
}
