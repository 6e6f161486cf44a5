//! Weather-provider registry: the closed set of known system weather
//! services, the mapping from bus ownership changes to provider events, and
//! the mapping from provider condition codes to device icons.

use vstd::prelude::*;
use vstd::string::*;
use crate::codec::WeatherIcon;

verus! {

/// `n` occurs in `h` starting at position `i`.
pub open spec fn seq_contains_at(h: Seq<char>, n: Seq<char>, i: int) -> bool {
    0 <= i && i + n.len() <= h.len() && h.subrange(i, i + n.len()) == n
}

/// `n` occurs somewhere in `h`.
pub open spec fn str_contains(h: Seq<char>, n: Seq<char>) -> bool {
    exists|i: int| seq_contains_at(h, n, i)
}

/// Substring test: whether `n` occurs anywhere in `h`, by characters.
pub fn contains_str(h: &str, n: &str) -> (r: bool)
    ensures
        r == str_contains(h@, n@),
{
    let hl = h.unicode_len();
    let nl = n.unicode_len();
    if nl > hl {
        proof {
            assert(forall|k: int| !seq_contains_at(h@, n@, k));
        }
        return false;
    }
    let mut i: usize = 0;
    while i <= hl - nl
        invariant
            nl <= hl,
            hl == h@.len(),
            nl == n@.len(),
            i as int <= hl - nl + 1,
            forall|k: int| 0 <= k < i ==> !seq_contains_at(h@, n@, k),
        decreases hl - nl + 1 - i,
    {
        let mut j: usize = 0;
        let mut matched = true;
        while j < nl && matched
            invariant
                i as int + nl <= hl,
                hl == h@.len(),
                nl == n@.len(),
                j <= nl,
                matched ==> forall|t: int| 0 <= t < j ==> h@[i + t] == n@[t],
                !matched ==> exists|t: int| 0 <= t < nl && h@[i + t] != n@[t],
            decreases nl - j, (if matched { 1int } else { 0int }),
        {
            if h.get_char(i + j) != n.get_char(j) {
                matched = false;
            } else {
                j += 1;
            }
        }
        if matched {
            proof {
                assert(h@.subrange(i as int, i + nl) =~= n@);
                assert(seq_contains_at(h@, n@, i as int));
            }
            return true;
        }
        proof {
            let t = choose|t: int| 0 <= t < nl && h@[i + t] != n@[t];
            assert(!seq_contains_at(h@, n@, i as int)) by {
                if seq_contains_at(h@, n@, i as int) {
                    assert(h@.subrange(i as int, i + nl)[t] == h@[i + t]);
                }
            }
        }
        i += 1;
    }
    proof {
        assert(forall|k: int| i <= k ==> !seq_contains_at(h@, n@, k));
        assert(forall|k: int| !seq_contains_at(h@, n@, k));
    }
    false
}

/// Character-wise string equality.
pub fn str_eq(a: &str, b: &str) -> (r: bool)
    ensures
        r == (a@ == b@),
{
    let al = a.unicode_len();
    let bl = b.unicode_len();
    if al != bl {
        return false;
    }
    let c = contains_str(a, b);
    proof {
        if c {
            let k = choose|k: int| seq_contains_at(a@, b@, k);
            assert(k == 0);
            assert(a@.subrange(0, al as int) =~= a@);
        }
        if a@ == b@ {
            assert(a@.subrange(0, al as int) =~= b@);
            assert(seq_contains_at(a@, b@, 0));
        }
    }
    c
}

/// The icon chosen for a lowercase condition code, by the first matching
/// keyword group; codes that match nothing fall back to the clear-sky icon.
pub open spec fn spec_icon_for(code: Seq<char>) -> WeatherIcon {
    if str_contains(code, "clear"@) || str_contains(code, "sun"@) {
        WeatherIcon::Sun
    } else if str_contains(code, "few"@) && str_contains(code, "cloud"@) {
        WeatherIcon::CloudsSun
    } else if str_contains(code, "scattered"@) && str_contains(code, "cloud"@) {
        WeatherIcon::Clouds
    } else if str_contains(code, "broken"@) || str_contains(code, "heavy"@) {
        WeatherIcon::BrokenClouds
    } else if str_contains(code, "shower"@) {
        WeatherIcon::CloudShowerHeavy
    } else if str_contains(code, "rain"@) {
        WeatherIcon::CloudSunRain
    } else if str_contains(code, "thunder"@) || str_contains(code, "storm"@) {
        WeatherIcon::Thunderstorm
    } else if str_contains(code, "snow"@) {
        WeatherIcon::Snow
    } else if str_contains(code, "mist"@) || str_contains(code, "fog"@) || str_contains(
        code,
        "smog"@,
    ) {
        WeatherIcon::Smog
    } else {
        WeatherIcon::Sun
    }
}

/// The lowercase form of a string, as `str::to_lowercase` computes it.
pub uninterp spec fn lower_of(s: Seq<char>) -> Seq<char>;

/// Relies on str::to_lowercase: the lowercase mapping depends on the
/// string's characters alone.
#[verifier::external_body]
fn to_lowercase_string(s: &str) -> (r: String)
    ensures
        r@ == lower_of(s@),
{
    s.to_lowercase()
}

/// Chooses the device icon for an already-lowercase condition code.
pub fn icon_for_condition(code: &str) -> (icon: WeatherIcon)
    ensures
        icon == spec_icon_for(code@),
{
    if contains_str(code, "clear") || contains_str(code, "sun") {
        WeatherIcon::Sun
    } else if contains_str(code, "few") && contains_str(code, "cloud") {
        WeatherIcon::CloudsSun
    } else if contains_str(code, "scattered") && contains_str(code, "cloud") {
        WeatherIcon::Clouds
    } else if contains_str(code, "broken") || contains_str(code, "heavy") {
        WeatherIcon::BrokenClouds
    } else if contains_str(code, "shower") {
        WeatherIcon::CloudShowerHeavy
    } else if contains_str(code, "rain") {
        WeatherIcon::CloudSunRain
    } else if contains_str(code, "thunder") || contains_str(code, "storm") {
        WeatherIcon::Thunderstorm
    } else if contains_str(code, "snow") {
        WeatherIcon::Snow
    } else if contains_str(code, "mist") || contains_str(code, "fog") || contains_str(
        code,
        "smog",
    ) {
        WeatherIcon::Smog
    } else {
        WeatherIcon::Sun
    }
}

/// Maps a provider's weather condition code to a device icon, after
/// lowercasing it.
pub fn map_icon_code(code: &str) -> (icon: WeatherIcon)
    ensures
        icon == spec_icon_for(lower_of(code@)),
{
    let lowered = to_lowercase_string(code);
    icon_for_condition(lowered.as_str())
}

/// A provider the registry has observed on the bus: a display name for the
/// UI and the service identifier that add/remove events are matched by.
#[derive(Debug, Clone)]
pub struct ProviderHandle {
    pub name: String,
    pub service_name: String,
}

/// A change in the set of present weather services.
#[derive(Debug, Clone)]
pub enum ProviderEvent {
    Added(ProviderHandle),
    Removed(String),
}

/// The registry cannot reach the service bus at all. Failures of single
/// per-service lookups are not errors: they count as "absent".
#[derive(Debug, Clone, Copy, PartialEq, Eq, Structural)]
pub enum DiscoveryError {
    BusUnavailable,
}

/// The closed set of service identifiers the registry watches.
pub open spec fn known_service(s: Seq<char>) -> bool {
    s == "org.kde.kweather"@ || s == "org.gnome.Weather"@
}

/// The display name shown for a known service identifier.
pub open spec fn display_name_for(s: Seq<char>) -> Seq<char> {
    if s == "org.kde.kweather"@ {
        "KDE Weather"@
    } else {
        "GNOME Weather"@
    }
}

/// Whether a service identifier is one of the watched weather services.
pub fn is_known_service(s: &str) -> (b: bool)
    ensures
        b == known_service(s@),
{
    str_eq(s, "org.kde.kweather") || str_eq(s, "org.gnome.Weather")
}

/// The display name for a known service identifier.
pub fn display_name(s: &str) -> (n: String)
    ensures
        n@ == display_name_for(s@),
{
    if str_eq(s, "org.kde.kweather") {
        "KDE Weather".to_owned()
    } else {
        "GNOME Weather".to_owned()
    }
}

/// Builds the handle under which a known service is reported.
pub fn handle_for_service(s: &str) -> (p: ProviderHandle)
    ensures
        p.service_name@ == s@,
        p.name@ == display_name_for(s@),
{
    ProviderHandle { name: display_name(s), service_name: s.to_owned() }
}

/// Filters one bus ownership-change notification down to a provider event:
/// a change on a watched service maps to `Added` (some owner) or `Removed`
/// (no owner); every other service is ignored.
pub fn filter_ownership_change(service: &str, has_owner: bool) -> (ev: Option<ProviderEvent>)
    ensures
        !known_service(service@) ==> ev is None,
        known_service(service@) && has_owner ==> (ev matches Some(ProviderEvent::Added(p))
            && p.service_name@ == service@ && p.name@ == display_name_for(service@)),
        known_service(service@) && !has_owner ==> (ev matches Some(ProviderEvent::Removed(s))
            && s@ == service@),
{
    if !is_known_service(service) {
        None
    } else if has_owner {
        Some(ProviderEvent::Added(handle_for_service(service)))
    } else {
        Some(ProviderEvent::Removed(service.to_owned()))
    }
}

/// The policy for one per-service presence lookup: a service is present
/// only when the lookup succeeded and answered yes; a failed lookup counts
/// as absent rather than an error.
pub fn presence_from_lookup(lookup: &Result<bool, DiscoveryError>) -> (b: bool)
    ensures
        b == (*lookup matches Ok(p) && p),
{
    match lookup {
        Ok(p) => *p,
        Err(_) => false,
    }
}

/// The handles to report from one round of presence queries over the known
/// services, in their fixed order.
pub fn providers_from_presence(kweather_present: bool, gnome_present: bool) -> (v: Vec<
    ProviderHandle,
>)
    ensures
        v@.len() == (if kweather_present { 1int } else { 0int }) + (if gnome_present {
            1int
        } else {
            0int
        }),
        kweather_present ==> v@[0].service_name@ == "org.kde.kweather"@ && v@[0].name@
            == display_name_for("org.kde.kweather"@),
        gnome_present ==> v@[v@.len() - 1].service_name@ == "org.gnome.Weather"@ && v@[v@.len()
            - 1].name@ == display_name_for("org.gnome.Weather"@),
        forall|i: int| 0 <= i < v@.len() ==> known_service(#[trigger] v@[i].service_name@),
{
    let mut v: Vec<ProviderHandle> = Vec::new();
    if kweather_present {
        v.push(handle_for_service("org.kde.kweather"));
    }
    if gnome_present {
        v.push(handle_for_service("org.gnome.Weather"));
    }
    v
}

/// A named weather provider. Fetching real data from the service behind it
/// is an extension point that lives with the caller; the registry only
/// tracks the name.
#[derive(Debug, Clone)]
pub struct GenericWeatherProvider {
    name: String,
}

impl GenericWeatherProvider {
    /// The provider's name.
    pub closed spec fn spec_name(self) -> Seq<char> {
        self.name@
    }

    pub fn new(name: String) -> (p: GenericWeatherProvider)
        ensures
            p.spec_name() == name@,
    {
        GenericWeatherProvider { name }
    }

    /// The provider's name.
    pub fn name(&self) -> (n: &str)
        ensures
            n@ == self.spec_name(),
    {
        self.name.as_str()
    }
}

} // verus!
