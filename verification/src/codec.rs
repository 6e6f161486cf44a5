//! Fixed-layout binary codec for the device's weather protocol.
//!
//! Two message kinds exist: current weather (53 bytes, kind 0, version 1)
//! and forecast (36 bytes, kind 1, version 0). Both are little-endian and
//! parsed by offset on the device, so every field has a fixed size and
//! position; names are truncated and short forecasts are zero-padded rather
//! than rejected.

use vstd::prelude::*;
use vstd::utf8::encode_utf8;

verus! {

/// Wire value that stands for an unknown sunrise or sunset time: the 16-bit
/// two's-complement representation of -1.
pub const UNKNOWN_TIME_BITS: u16 = 0xFFFF;

/// Largest valid minute-of-day (23:59).
pub const LAST_MINUTE_OF_DAY: u16 = 1439;

/// Condition codes understood by the device, with wire values 0 through 8.
#[derive(Debug, Clone, Copy, PartialEq, Eq, Structural)]
pub enum WeatherIcon {
    /// Clear sky
    Sun,
    /// Few clouds
    CloudsSun,
    /// Scattered clouds
    Clouds,
    /// Heavy clouds
    BrokenClouds,
    /// Shower rain
    CloudShowerHeavy,
    /// Rain
    CloudSunRain,
    Thunderstorm,
    Snow,
    /// Mist
    Smog,
}

impl WeatherIcon {
    /// The icon's single-byte wire value.
    pub open spec fn spec_code(self) -> u8 {
        match self {
            WeatherIcon::Sun => 0,
            WeatherIcon::CloudsSun => 1,
            WeatherIcon::Clouds => 2,
            WeatherIcon::BrokenClouds => 3,
            WeatherIcon::CloudShowerHeavy => 4,
            WeatherIcon::CloudSunRain => 5,
            WeatherIcon::Thunderstorm => 6,
            WeatherIcon::Snow => 7,
            WeatherIcon::Smog => 8,
        }
    }

    /// The icon's single-byte wire value.
    #[verifier::when_used_as_spec(spec_code)]
    pub fn code(self) -> (c: u8)
        ensures
            c == self.spec_code(),
    {
        match self {
            WeatherIcon::Sun => 0,
            WeatherIcon::CloudsSun => 1,
            WeatherIcon::Clouds => 2,
            WeatherIcon::BrokenClouds => 3,
            WeatherIcon::CloudShowerHeavy => 4,
            WeatherIcon::CloudSunRain => 5,
            WeatherIcon::Thunderstorm => 6,
            WeatherIcon::Snow => 7,
            WeatherIcon::Smog => 8,
        }
    }
}

/// A current-weather reading, ready for encoding. Temperatures are signed
/// fixed-point Celsius times 100.
#[derive(Debug, Clone)]
pub struct CurrentWeather {
    /// Capture time, in seconds since the Unix epoch.
    pub timestamp: i64,
    pub temperature: i16,
    pub min_temperature: i16,
    pub max_temperature: i16,
    /// Location name; the wire field keeps at most its first 31 bytes.
    pub location: String,
    pub icon: WeatherIcon,
    /// Minutes since midnight, or `None` when unknown.
    pub sunrise: Option<u16>,
    /// Minutes since midnight, or `None` when unknown.
    pub sunset: Option<u16>,
}

impl CurrentWeather {
    /// A reading is well formed when its sunrise and sunset, where known,
    /// are valid minutes of a day, so that neither collides with the wire
    /// sentinel for "unknown".
    pub open spec fn wf(self) -> bool {
        &&& (self.sunrise matches Some(m) ==> m <= LAST_MINUTE_OF_DAY)
        &&& (self.sunset matches Some(m) ==> m <= LAST_MINUTE_OF_DAY)
    }

    /// Runtime check of `wf`, for callers that receive a reading from
    /// outside.
    pub fn is_wf(&self) -> (b: bool)
        ensures
            b == self.wf(),
    {
        let sunrise_ok = match self.sunrise {
            Some(m) => m <= LAST_MINUTE_OF_DAY,
            None => true,
        };
        let sunset_ok = match self.sunset {
            Some(m) => m <= LAST_MINUTE_OF_DAY,
            None => true,
        };
        sunrise_ok && sunset_ok
    }
}

/// One day of a forecast. Temperatures are signed fixed-point Celsius
/// times 100.
#[derive(Debug, Clone)]
pub struct ForecastDay {
    pub min_temperature: i16,
    pub max_temperature: i16,
    pub icon: WeatherIcon,
}

/// A multi-day forecast; only the first five days reach the wire.
#[derive(Debug, Clone)]
pub struct Forecast {
    /// Capture time, in seconds since the Unix epoch.
    pub timestamp: i64,
    pub days: Vec<ForecastDay>,
}

/// The two little-endian bytes of a 16-bit value.
pub open spec fn u16_le(v: u16) -> Seq<u8> {
    seq![(v % 256) as u8, (v / 256) as u8]
}

/// The eight little-endian bytes of a 64-bit value.
pub open spec fn u64_le(v: u64) -> Seq<u8> {
    seq![
        (v % 256) as u8,
        ((v / 256) % 256) as u8,
        ((v / 65536) % 256) as u8,
        ((v / 16777216) % 256) as u8,
        ((v / 4294967296) % 256) as u8,
        ((v / 1099511627776) % 256) as u8,
        ((v / 281474976710656) % 256) as u8,
        ((v / 72057594037927936) % 256) as u8,
    ]
}

/// The wire bits of an optional minute-of-day: the value itself when known,
/// the sentinel otherwise.
pub open spec fn minute_bits(m: Option<u16>) -> u16 {
    match m {
        Some(v) => v,
        None => UNKNOWN_TIME_BITS,
    }
}

/// The 32-byte location field: the name's bytes truncated to 31, then
/// zero-padded to exactly 32, so at least one zero byte always remains.
pub open spec fn location_field(name: Seq<u8>) -> Seq<u8> {
    let kept = if name.len() <= 31 { name } else { name.take(31) };
    kept + Seq::new((32 - kept.len()) as nat, |i: int| 0u8)
}

/// The location field is always exactly 32 bytes, ends in a zero byte, and
/// carries the name's first bytes unchanged; everything past the name is
/// zero.
pub proof fn lemma_location_field(name: Seq<u8>)
    ensures
        location_field(name).len() == 32,
        location_field(name)[31] == 0,
        exists|i: int| 0 <= i < 32 && location_field(name)[i] == 0,
        forall|i: int| 0 <= i < 31 && i < name.len() ==> location_field(name)[i] == name[i],
        forall|i: int| name.len() <= i < 32 ==> location_field(name)[i] == 0,
{
}

/// The full 53-byte wire message for a current-weather reading: kind 0,
/// version 1, timestamp, the three temperatures, the location field, the
/// icon code, then sunrise and sunset.
pub open spec fn current_weather_bytes(w: CurrentWeather) -> Seq<u8> {
    seq![0u8, 1u8] + u64_le(w.timestamp as u64) + u16_le(w.temperature as u16) + u16_le(
        w.min_temperature as u16,
    ) + u16_le(w.max_temperature as u16) + location_field(encode_utf8(w.location@)) + seq![
        w.icon.spec_code(),
    ] + u16_le(minute_bits(w.sunrise)) + u16_le(minute_bits(w.sunset))
}

fn push_u16_le(out: &mut Vec<u8>, v: u16)
    ensures
        final(out)@ == old(out)@ + u16_le(v),
{
    out.push((v % 256) as u8);
    out.push((v / 256) as u8);
    proof {
        assert(out@ =~= old(out)@ + u16_le(v));
    }
}

fn push_u64_le(out: &mut Vec<u8>, v: u64)
    ensures
        final(out)@ == old(out)@ + u64_le(v),
{
    out.push((v % 256) as u8);
    out.push(((v / 256) % 256) as u8);
    out.push(((v / 65536) % 256) as u8);
    out.push(((v / 16777216) % 256) as u8);
    out.push(((v / 4294967296) % 256) as u8);
    out.push(((v / 1099511627776) % 256) as u8);
    out.push(((v / 281474976710656) % 256) as u8);
    out.push(((v / 72057594037927936) % 256) as u8);
    proof {
        assert(out@ =~= old(out)@ + u64_le(v));
    }
}

fn push_location_field(out: &mut Vec<u8>, name: &str)
    ensures
        final(out)@ == old(out)@ + location_field(encode_utf8(name@)),
{
    let bytes = name.as_bytes_vec();
    let n = if bytes.len() <= 31 {
        bytes.len()
    } else {
        31
    };
    let ghost kept = if bytes@.len() <= 31 {
        bytes@
    } else {
        bytes@.take(31)
    };
    assert(kept =~= bytes@.take(n as int));
    let mut i: usize = 0;
    while i < n
        invariant
            i <= n,
            n <= bytes.len(),
            out@ == old(out)@ + bytes@.take(i as int),
        decreases n - i,
    {
        out.push(bytes[i]);
        proof {
            assert(out@ =~= old(out)@ + bytes@.take(i + 1 as int));
        }
        i += 1;
    }
    let mut j: usize = n;
    while j < 32
        invariant
            n <= j <= 32,
            kept == bytes@.take(n as int),
            out@ == old(out)@ + kept + Seq::new((j - n) as nat, |k: int| 0u8),
        decreases 32 - j,
    {
        out.push(0);
        proof {
            assert(out@ =~= old(out)@ + kept + Seq::new((j + 1 - n) as nat, |k: int| 0u8));
        }
        j += 1;
    }
    proof {
        assert(out@ =~= old(out)@ + location_field(encode_utf8(name@)));
    }
}

/// Encodes a current-weather reading into its 53-byte wire message.
///
/// The output is exactly `current_weather_bytes`: 53 bytes, message kind 0,
/// format version 1, an absent sunrise or sunset encoded as the -1 sentinel,
/// and a location field that always ends in a zero byte.
pub fn encode_current(w: &CurrentWeather) -> (out: Vec<u8>)
    requires
        w.wf(),
    ensures
        out@ == current_weather_bytes(*w),
        out@.len() == 53,
        out@[0] == 0,
        out@[1] == 1,
        out@[47] == 0,
        w.sunrise is None ==> out@[49] == 255 && out@[50] == 255,
        w.sunset is None ==> out@[51] == 255 && out@[52] == 255,
{
    let mut out: Vec<u8> = Vec::new();
    out.push(0);
    out.push(1);
    let ts_bits: u64 = #[verifier::truncate] (w.timestamp as u64);
    push_u64_le(&mut out, ts_bits);
    let temp_bits: u16 = #[verifier::truncate] (w.temperature as u16);
    push_u16_le(&mut out, temp_bits);
    let min_bits: u16 = #[verifier::truncate] (w.min_temperature as u16);
    push_u16_le(&mut out, min_bits);
    let max_bits: u16 = #[verifier::truncate] (w.max_temperature as u16);
    push_u16_le(&mut out, max_bits);
    push_location_field(&mut out, w.location.as_str());
    out.push(w.icon.code());
    let sunrise_bits = match w.sunrise {
        Some(m) => m,
        None => UNKNOWN_TIME_BITS,
    };
    push_u16_le(&mut out, sunrise_bits);
    let sunset_bits = match w.sunset {
        Some(m) => m,
        None => UNKNOWN_TIME_BITS,
    };
    push_u16_le(&mut out, sunset_bits);
    proof {
        lemma_location_field(encode_utf8(w.location@));
        assert(out@ =~= current_weather_bytes(*w));
    }
    out
}

/// The five wire bytes of one forecast day: min and max temperature, then
/// the icon code.
pub open spec fn day_bytes(d: ForecastDay) -> Seq<u8> {
    u16_le(d.min_temperature as u16) + u16_le(d.max_temperature as u16) + seq![d.icon.spec_code()]
}

/// The concatenated wire bytes of a run of forecast days.
pub open spec fn days_bytes(days: Seq<ForecastDay>) -> Seq<u8>
    decreases days.len(),
{
    if days.len() == 0 {
        Seq::empty()
    } else {
        day_bytes(days[0]) + days_bytes(days.drop_first())
    }
}

/// Appending a day appends its five bytes.
pub proof fn lemma_days_bytes_push(days: Seq<ForecastDay>, d: ForecastDay)
    ensures
        days_bytes(days.push(d)) == days_bytes(days) + day_bytes(d),
    decreases days.len(),
{
    if days.len() == 0 {
        reveal_with_fuel(days_bytes, 2);
        assert(days.push(d)[0] == d);
        assert(days.push(d).drop_first() =~= Seq::<ForecastDay>::empty());
        assert(days_bytes(days.push(d).drop_first()) =~= Seq::<u8>::empty());
        assert(days_bytes(days.push(d)) =~= days_bytes(days) + day_bytes(d));
    } else {
        assert(days.push(d)[0] == days[0]);
        assert(days.push(d).drop_first() =~= days.drop_first().push(d));
        lemma_days_bytes_push(days.drop_first(), d);
        assert(days_bytes(days.push(d)) == day_bytes(days[0]) + days_bytes(
            days.drop_first().push(d),
        ));
        assert(days_bytes(days.push(d)) =~= days_bytes(days) + day_bytes(d));
    }
}

/// A run of days encodes to five bytes per day.
pub proof fn lemma_days_bytes_len(days: Seq<ForecastDay>)
    ensures
        days_bytes(days).len() == 5 * days.len(),
    decreases days.len(),
{
    if days.len() > 0 {
        lemma_days_bytes_len(days.drop_first());
    }
}

/// How many days of a forecast reach the wire: at most five; any further
/// days are dropped.
pub open spec fn wire_day_count(f: Forecast) -> int {
    if f.days@.len() <= 5 {
        f.days@.len() as int
    } else {
        5
    }
}

/// The full 36-byte wire message for a forecast: kind 1, version 0,
/// timestamp, the day count, then five 5-byte day slots, of which the slots
/// no day fills are all zero.
pub open spec fn forecast_bytes(f: Forecast) -> Seq<u8> {
    seq![1u8, 0u8] + u64_le(f.timestamp as u64) + seq![wire_day_count(f) as u8] + days_bytes(
        f.days@.take(wire_day_count(f)),
    ) + Seq::new((25 - 5 * wire_day_count(f)) as nat, |i: int| 0u8)
}

/// Encodes a forecast into its 36-byte wire message.
///
/// The output is exactly `forecast_bytes`: 36 bytes whatever the day count,
/// message kind 1, format version 0, byte 10 holding the number of encoded
/// days (at most five), and every unused day slot zero-filled.
pub fn encode_forecast(f: &Forecast) -> (out: Vec<u8>)
    ensures
        out@ == forecast_bytes(*f),
        out@.len() == 36,
        out@[0] == 1,
        out@[1] == 0,
        out@[10] == wire_day_count(*f) as u8,
        forall|i: int| 11 + 5 * wire_day_count(*f) <= i < 36 ==> out@[i] == 0,
{
    let mut out: Vec<u8> = Vec::new();
    out.push(1);
    out.push(0);
    let ts_bits: u64 = #[verifier::truncate] (f.timestamp as u64);
    push_u64_le(&mut out, ts_bits);
    let n = if f.days.len() <= 5 {
        f.days.len()
    } else {
        5
    };
    out.push(n as u8);
    let ghost header = out@;
    let mut i: usize = 0;
    while i < n
        invariant
            i <= n,
            n <= f.days.len(),
            n == wire_day_count(*f),
            out@ == header + days_bytes(f.days@.take(i as int)),
        decreases n - i,
    {
        let day = &f.days[i];
        let min_bits: u16 = #[verifier::truncate] (day.min_temperature as u16);
        push_u16_le(&mut out, min_bits);
        let max_bits: u16 = #[verifier::truncate] (day.max_temperature as u16);
        push_u16_le(&mut out, max_bits);
        out.push(day.icon.code());
        proof {
            lemma_days_bytes_push(f.days@.take(i as int), f.days@[i as int]);
            assert(f.days@.take(i + 1 as int) =~= f.days@.take(i as int).push(f.days@[i as int]));
            assert(out@ =~= header + days_bytes(f.days@.take(i + 1 as int)));
        }
        i += 1;
    }
    let ghost with_days = out@;
    let pad = 25 - 5 * n;
    let mut j: usize = 0;
    while j < pad
        invariant
            j <= pad,
            pad == 25 - 5 * wire_day_count(*f),
            out@ == with_days + Seq::new(j as nat, |k: int| 0u8),
        decreases pad - j,
    {
        out.push(0);
        proof {
            assert(out@ =~= with_days + Seq::new((j + 1) as nat, |k: int| 0u8));
        }
        j += 1;
    }
    proof {
        assert(f.days@.take(wire_day_count(*f)) =~= f.days@.take(n as int));
        lemma_days_bytes_len(f.days@.take(n as int));
        assert(out@ =~= forecast_bytes(*f));
    }
    out
}

} // verus!
