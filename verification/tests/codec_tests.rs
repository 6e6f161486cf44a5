use watch_weather::codec::{encode_current, encode_forecast, CurrentWeather, Forecast, ForecastDay, WeatherIcon};

fn sample_current() -> CurrentWeather {
    CurrentWeather {
        timestamp: 1_700_000_000,
        temperature: 2345,
        min_temperature: -123,
        max_temperature: 3000,
        location: String::from("Berlin"),
        icon: WeatherIcon::CloudSunRain,
        sunrise: Some(361),
        sunset: Some(1081),
    }
}

#[test]
fn current_weather_exact_bytes() {
    let out = encode_current(&sample_current());
    let expected: Vec<u8> = vec![
        0, 1, // kind 0, version 1
        0, 241, 83, 101, 0, 0, 0, 0, // timestamp 1700000000 LE
        41, 9, // 2345
        133, 255, // -123
        184, 11, // 3000
        66, 101, 114, 108, 105, 110, 0, 0, 0, 0, 0, 0, 0, 0, 0, 0, 0, 0, 0, 0, 0, 0, 0, 0, 0,
        0, 0, 0, 0, 0, 0, 0, // "Berlin" padded to 32
        5, // rain icon
        105, 1, // sunrise 361
        57, 4, // sunset 1081
    ];
    assert_eq!(out, expected);
}

#[test]
fn current_weather_header_and_length() {
    let mut w = sample_current();
    w.location = String::new();
    w.icon = WeatherIcon::Sun;
    let out = encode_current(&w);
    assert_eq!(out.len(), 53);
    assert_eq!(out[0], 0);
    assert_eq!(out[1], 1);
}

#[test]
fn absent_sunrise_and_sunset_encode_sentinel() {
    let mut w = sample_current();
    w.sunrise = None;
    w.sunset = None;
    let out = encode_current(&w);
    assert_eq!(&out[49..51], &[0xFF, 0xFF]);
    assert_eq!(&out[51..53], &[0xFF, 0xFF]);
}

#[test]
fn absent_sunrise_only() {
    let mut w = sample_current();
    w.sunrise = None;
    let out = encode_current(&w);
    assert_eq!(&out[49..51], &[0xFF, 0xFF]);
    assert_eq!(&out[51..53], &[57, 4]);
}

#[test]
fn long_location_truncated_with_zero_byte() {
    let mut w = sample_current();
    w.location = "x".repeat(40);
    let out = encode_current(&w);
    assert_eq!(out.len(), 53);
    // first 31 bytes of the name survive, the 32nd field byte is zero
    for i in 0..31 {
        assert_eq!(out[16 + i], b'x');
    }
    assert_eq!(out[47], 0);
    assert!(out[16..48].contains(&0u8));
}

#[test]
fn exactly_31_byte_location_keeps_terminator() {
    let mut w = sample_current();
    w.location = "y".repeat(31);
    let out = encode_current(&w);
    for i in 0..31 {
        assert_eq!(out[16 + i], b'y');
    }
    assert_eq!(out[47], 0);
}

#[test]
fn short_location_zero_padded() {
    let mut w = sample_current();
    w.location = String::from("Oslo");
    let out = encode_current(&w);
    assert_eq!(&out[16..20], b"Oslo");
    for i in 20..48 {
        assert_eq!(out[i], 0);
    }
}

#[test]
fn icon_wire_codes() {
    assert_eq!(WeatherIcon::Sun.code(), 0);
    assert_eq!(WeatherIcon::CloudsSun.code(), 1);
    assert_eq!(WeatherIcon::Clouds.code(), 2);
    assert_eq!(WeatherIcon::BrokenClouds.code(), 3);
    assert_eq!(WeatherIcon::CloudShowerHeavy.code(), 4);
    assert_eq!(WeatherIcon::CloudSunRain.code(), 5);
    assert_eq!(WeatherIcon::Thunderstorm.code(), 6);
    assert_eq!(WeatherIcon::Snow.code(), 7);
    assert_eq!(WeatherIcon::Smog.code(), 8);
}

#[test]
fn is_wf_checks_minutes() {
    let mut w = sample_current();
    assert!(w.is_wf());
    w.sunrise = Some(1439);
    assert!(w.is_wf());
    w.sunrise = Some(1440);
    assert!(!w.is_wf());
    w.sunrise = None;
    w.sunset = Some(2000);
    assert!(!w.is_wf());
}

fn sample_forecast() -> Forecast {
    Forecast {
        timestamp: 1_600_000_000,
        days: vec![
            ForecastDay { min_temperature: -500, max_temperature: 1200, icon: WeatherIcon::Snow },
            ForecastDay { min_temperature: 0, max_temperature: 250, icon: WeatherIcon::Sun },
            ForecastDay { min_temperature: 1000, max_temperature: 2000, icon: WeatherIcon::Clouds },
        ],
    }
}

#[test]
fn forecast_exact_bytes() {
    let out = encode_forecast(&sample_forecast());
    let expected: Vec<u8> = vec![
        1, 0, // kind 1, version 0
        0, 16, 94, 95, 0, 0, 0, 0, // timestamp 1600000000 LE
        3, // day count
        12, 254, 176, 4, 7, // day 0: -500, 1200, snow
        0, 0, 250, 0, 0, // day 1: 0, 250, sun
        232, 3, 208, 7, 2, // day 2: 1000, 2000, clouds
        0, 0, 0, 0, 0, 0, 0, 0, 0, 0, // two empty slots
    ];
    assert_eq!(out, expected);
}

#[test]
fn forecast_pads_unused_slots_with_zeros() {
    let out = encode_forecast(&sample_forecast());
    assert_eq!(out.len(), 36);
    assert_eq!(out[10], 3);
    for i in 26..36 {
        assert_eq!(out[i], 0);
    }
}

#[test]
fn empty_forecast_is_all_padding() {
    let f = Forecast { timestamp: 0, days: Vec::new() };
    let out = encode_forecast(&f);
    assert_eq!(out.len(), 36);
    assert_eq!(out[10], 0);
    for i in 11..36 {
        assert_eq!(out[i], 0);
    }
}

#[test]
fn seven_day_forecast_keeps_first_five() {
    let mut f = sample_forecast();
    for i in 0..4 {
        f.days.push(ForecastDay {
            min_temperature: 100 * (i + 1) as i16,
            max_temperature: 200 * (i + 1) as i16,
            icon: WeatherIcon::Smog,
        });
    }
    let out = encode_forecast(&f);
    assert_eq!(f.days.len(), 7);
    assert_eq!(out.len(), 36);
    assert_eq!(out[10], 5);
    // slot 4 holds the fifth day (min 200, max 400), nothing beyond it
    assert_eq!(&out[31..36], &[200, 0, 144, 1, 8]);
}

#[test]
fn five_day_forecast_has_no_padding_bytes_left() {
    let mut f = sample_forecast();
    f.days.push(ForecastDay { min_temperature: 1, max_temperature: 2, icon: WeatherIcon::Smog });
    f.days.push(ForecastDay { min_temperature: 3, max_temperature: 4, icon: WeatherIcon::Smog });
    let out = encode_forecast(&f);
    assert_eq!(out.len(), 36);
    assert_eq!(out[10], 5);
    assert_eq!(&out[31..36], &[3, 0, 4, 0, 8]);
}
