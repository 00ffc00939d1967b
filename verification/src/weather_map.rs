use vstd::prelude::*;

use crate::text::str_equal;

verus! {

/// WMO weather interpretation code (Open-Meteo `weather_code`).
#[derive(Debug, Clone, Copy, PartialEq, Eq, Structural)]
pub struct WeatherCode(pub u8);

/// Kind of falling precipitation.
#[derive(Debug, Clone, Copy, PartialEq, Eq, Structural)]
pub enum PrecipKind {
    Rain,
    Snow,
}

/// Thunderstorm codes.
pub open spec fn is_thunder_code(code: u8) -> bool {
    code == 95 || code == 96 || code == 99
}

/// Snowfall, snow grains and snow shower codes.
pub open spec fn is_snow_code(code: u8) -> bool {
    (71 <= code <= 77) || code == 85 || code == 86
}

/// Fog and depositing rime fog.
pub open spec fn is_fog_code(code: u8) -> bool {
    code == 45 || code == 48
}

/// Overcast sky and every precipitation code: the cloud deck is at least
/// mostly closed.
pub open spec fn is_overcast_code(code: u8) -> bool {
    code == 3 || (51 <= code <= 99)
}

/// Clear, mainly clear, partly cloudy and overcast: nothing falls.
pub open spec fn is_dry_code(code: u8) -> bool {
    code <= 3
}

/// Lowest precipitation intensity a code implies, in thousandths of the
/// full-scale intensity.
pub open spec fn spec_precip_floor_milli(code: u8) -> u16 {
    if code == 51 || code == 56 || code == 80 {
        180
    } else if code == 53 || code == 61 || code == 81 {
        350
    } else if code == 55 || code == 63 || code == 65 || code == 82 {
        650
    } else if code == 66 || code == 67 {
        400
    } else if code == 71 || code == 85 {
        250
    } else if code == 73 || code == 75 || code == 77 || code == 86 {
        550
    } else if code == 95 {
        400
    } else if code == 96 || code == 99 {
        700
    } else {
        0
    }
}

/// What a WMO code alone says about the sky. Intensities are in thousandths
/// of full scale; the caller combines them with the measured cloud cover,
/// precipitation and visibility.
#[derive(Debug, Clone, Copy, PartialEq, Eq, Structural)]
pub struct WmoProfile {
    pub code: WeatherCode,
    pub thunder: bool,
    pub precip_kind: PrecipKind,
    pub foggy: bool,
    /// Cloud cover is raised to at least this much.
    pub cloud_floor_milli: u16,
    /// Cloud cover is lowered to at most this much.
    pub cloud_cap_milli: u16,
    /// Precipitation is raised to at least this much.
    pub precip_floor_milli: u16,
    /// Precipitation is forced to zero.
    pub dry: bool,
}

/// The profile of a WMO code.
pub open spec fn spec_profile(code: u8) -> WmoProfile {
    WmoProfile {
        code: WeatherCode(code),
        thunder: is_thunder_code(code),
        precip_kind: if is_snow_code(code) { PrecipKind::Snow } else { PrecipKind::Rain },
        foggy: is_fog_code(code),
        cloud_floor_milli: if is_overcast_code(code) { 550 } else { 0 },
        cloud_cap_milli: if code == 0 { 200 } else { 1000 },
        precip_floor_milli: spec_precip_floor_milli(code),
        dry: is_dry_code(code),
    }
}

impl WeatherCode {
    /// Interprets the code.
    pub fn profile(self) -> (p: WmoProfile)
        ensures
            p == spec_profile(self.0),
    {
        let code = self.0;
        let thunder = code == 95 || code == 96 || code == 99;
        let snow = (71 <= code && code <= 77) || code == 85 || code == 86;
        let foggy = code == 45 || code == 48;
        let overcast = code == 3 || (51 <= code && code <= 99);
        let precip_floor_milli: u16 = if code == 51 || code == 56 || code == 80 {
            180
        } else if code == 53 || code == 61 || code == 81 {
            350
        } else if code == 55 || code == 63 || code == 65 || code == 82 {
            650
        } else if code == 66 || code == 67 {
            400
        } else if code == 71 || code == 85 {
            250
        } else if code == 73 || code == 75 || code == 77 || code == 86 {
            550
        } else if code == 95 {
            400
        } else if code == 96 || code == 99 {
            700
        } else {
            0
        };
        WmoProfile {
            code: self,
            thunder,
            precip_kind: if snow { PrecipKind::Snow } else { PrecipKind::Rain },
            foggy,
            cloud_floor_milli: if overcast { 550 } else { 0 },
            cloud_cap_milli: if code == 0 { 200 } else { 1000 },
            precip_floor_milli,
            dry: code <= 3,
        }
    }
}

/// Every precipitation code is overcast, so rain or snow never falls from an
/// open sky; a thunderstorm always brings precipitation; and codes that force
/// precipitation to zero never carry a precipitation floor.
pub proof fn lemma_profile_consistent(code: u8)
    ensures
        spec_profile(code).precip_floor_milli > 0 ==> spec_profile(code).cloud_floor_milli == 550,
        spec_profile(code).thunder ==> spec_profile(code).precip_floor_milli >= 400,
        spec_profile(code).thunder ==> spec_profile(code).precip_kind == PrecipKind::Rain,
        spec_profile(code).dry ==> spec_profile(code).precip_floor_milli == 0,
        spec_profile(code).cloud_floor_milli <= spec_profile(code).cloud_cap_milli,
{
}

/// A weather observation in the units Open-Meteo reports: cloud cover in
/// percent, precipitation in millimetres, visibility in metres.
#[derive(Debug, Clone, Copy, PartialEq, Eq, Structural)]
pub struct WmoReading {
    pub code: u8,
    pub cloud_cover_pct: u16,
    pub precipitation_mm: u16,
    pub visibility_m: u32,
}

/// The observation behind a named weather preset; `None` stands for the
/// clear-sky fallback (which is also what unknown names get).
pub open spec fn spec_preset(name: Seq<char>) -> Option<WmoReading> {
    if name == "cloud"@ || name == "cloudy"@ {
        Some(WmoReading { code: 3, cloud_cover_pct: 85, precipitation_mm: 0, visibility_m: 16_000 })
    } else if name == "rain"@ {
        Some(WmoReading { code: 63, cloud_cover_pct: 95, precipitation_mm: 4, visibility_m: 8_000 })
    } else if name == "snow"@ {
        Some(WmoReading { code: 73, cloud_cover_pct: 95, precipitation_mm: 2, visibility_m: 6_000 })
    } else if name == "fog"@ {
        Some(WmoReading { code: 45, cloud_cover_pct: 80, precipitation_mm: 0, visibility_m: 400 })
    } else if name == "thunder"@ || name == "storm"@ {
        Some(WmoReading { code: 95, cloud_cover_pct: 100, precipitation_mm: 5, visibility_m: 4_000 })
    } else {
        None
    }
}

/// The observation a named weather preset stands for (`clear` and unknown
/// names give `None`, the clear-sky fallback).
pub fn preset_reading(name: &str) -> (reading: Option<WmoReading>)
    ensures
        reading == spec_preset(name@),
{
    if str_equal(name, "cloud") || str_equal(name, "cloudy") {
        Some(WmoReading { code: 3, cloud_cover_pct: 85, precipitation_mm: 0, visibility_m: 16_000 })
    } else if str_equal(name, "rain") {
        Some(WmoReading { code: 63, cloud_cover_pct: 95, precipitation_mm: 4, visibility_m: 8_000 })
    } else if str_equal(name, "snow") {
        Some(WmoReading { code: 73, cloud_cover_pct: 95, precipitation_mm: 2, visibility_m: 6_000 })
    } else if str_equal(name, "fog") {
        Some(WmoReading { code: 45, cloud_cover_pct: 80, precipitation_mm: 0, visibility_m: 400 })
    } else if str_equal(name, "thunder") || str_equal(name, "storm") {
        Some(WmoReading { code: 95, cloud_cover_pct: 100, precipitation_mm: 5, visibility_m: 4_000 })
    } else {
        None
    }
}

/// What each WMO code group means for the sky: lightning exactly for the
/// thunderstorm codes 95, 96 and 99; snow exactly for codes 71 to 77, 85 and
/// 86; fog exactly for 45 and 48; nothing falls exactly for codes 0 to 3; a
/// mostly closed deck for overcast and every precipitation code; only a
/// clear sky caps the cloud cover; a precipitation floor exactly for the
/// codes that report falling rain, drizzle, snow or storms, higher for the
/// heavier codes of a kind, and highest for storms with hail.
pub proof fn lemma_profile_code_groups(code: u8)
    ensures
        spec_profile(code).code == WeatherCode(code),
        spec_profile(code).thunder == (code == 95 || code == 96 || code == 99),
        (spec_profile(code).precip_kind == PrecipKind::Snow) == ((71 <= code && code <= 77) || code == 85 || code == 86),
        spec_profile(code).foggy == (code == 45 || code == 48),
        spec_profile(code).dry == (code <= 3),
        (spec_profile(code).cloud_floor_milli == 550) == (code == 3 || (51 <= code && code <= 99)),
        (spec_profile(code).cloud_floor_milli == 0) == !(code == 3 || (51 <= code && code <= 99)),
        (spec_profile(code).cloud_cap_milli == 200) == (code == 0),
        code != 0 ==> spec_profile(code).cloud_cap_milli == 1000,
        (spec_profile(code).precip_floor_milli > 0) == (code == 51 || code == 53 || code == 55 || code == 56
            || code == 61 || code == 63 || code == 65 || code == 66 || code == 67 || code == 71 || code == 73
            || code == 75 || code == 77 || code == 80 || code == 81 || code == 82 || code == 85 || code == 86
            || code == 95 || code == 96 || code == 99),
        spec_profile(51).precip_floor_milli < spec_profile(53).precip_floor_milli,
        spec_profile(53).precip_floor_milli < spec_profile(55).precip_floor_milli,
        spec_profile(61).precip_floor_milli < spec_profile(63).precip_floor_milli,
        spec_profile(71).precip_floor_milli < spec_profile(73).precip_floor_milli,
        code == 96 || code == 99 ==> spec_profile(code).precip_floor_milli > spec_profile(95).precip_floor_milli,
{
}

/// Every documented preset is recognised and stands for the weather it is
/// named after (read through the WMO profile of its code); the aliases agree
/// (`cloud`/`cloudy`, `thunder`/`storm`); `clear` and every other name give
/// the clear-sky fallback.
pub proof fn lemma_presets_named_weather(name: Seq<char>)
    ensures
        spec_preset("cloud"@) == spec_preset("cloudy"@),
        spec_preset("thunder"@) == spec_preset("storm"@),
        spec_preset("cloudy"@) matches Some(r) && r.code == 3 && r.cloud_cover_pct == 85 && r.precipitation_mm == 0
            && r.visibility_m == 16_000 && spec_profile(r.code).dry && spec_profile(r.code).cloud_floor_milli > 0,
        spec_preset("rain"@) matches Some(r) && r.code == 63 && r.cloud_cover_pct == 95 && r.precipitation_mm == 4
            && r.visibility_m == 8_000 && spec_profile(r.code).precip_kind
            == PrecipKind::Rain && spec_profile(r.code).precip_floor_milli > 0 && !spec_profile(r.code).thunder,
        spec_preset("snow"@) matches Some(r) && r.code == 73 && r.cloud_cover_pct == 95 && r.precipitation_mm == 2
            && r.visibility_m == 6_000 && spec_profile(r.code).precip_kind
            == PrecipKind::Snow,
        spec_preset("fog"@) matches Some(r) && r.code == 45 && r.cloud_cover_pct == 80 && r.precipitation_mm == 0
            && spec_profile(r.code).foggy && r.visibility_m == 400,
        spec_preset("thunder"@) matches Some(r) && r.code == 95 && r.cloud_cover_pct == 100 && r.precipitation_mm == 5
            && r.visibility_m == 4_000 && spec_profile(r.code).thunder,
        spec_preset("clear"@) is None,
        spec_preset(name) is Some ==> (name == "cloud"@ || name == "cloudy"@ || name == "rain"@ || name == "snow"@
            || name == "fog"@ || name == "thunder"@ || name == "storm"@),
{
    reveal_strlit("cloud");
    reveal_strlit("cloudy");
    reveal_strlit("rain");
    reveal_strlit("snow");
    reveal_strlit("fog");
    reveal_strlit("thunder");
    reveal_strlit("storm");
    reveal_strlit("clear");
    assert("cloud"@.len() != "cloudy"@.len());
    assert("cloud"@[0] != "rain"@[0]);
    assert("cloud"@[0] != "snow"@[0]);
    assert("cloud"@[0] != "fog"@[0]);
    assert("cloud"@[0] != "thunder"@[0]);
    assert("cloud"@[0] != "storm"@[0]);
    assert("cloud"@[2] != "clear"@[2]);
    assert("cloudy"@[0] != "rain"@[0]);
    assert("cloudy"@[0] != "snow"@[0]);
    assert("cloudy"@[0] != "fog"@[0]);
    assert("cloudy"@[0] != "thunder"@[0]);
    assert("cloudy"@[0] != "storm"@[0]);
    assert("cloudy"@[2] != "clear"@[2]);
    assert("rain"@[0] != "snow"@[0]);
    assert("rain"@[0] != "fog"@[0]);
    assert("rain"@[0] != "thunder"@[0]);
    assert("rain"@[0] != "storm"@[0]);
    assert("rain"@[0] != "clear"@[0]);
    assert("snow"@[0] != "fog"@[0]);
    assert("snow"@[0] != "thunder"@[0]);
    assert("snow"@[1] != "storm"@[1]);
    assert("snow"@[0] != "clear"@[0]);
    assert("fog"@[0] != "thunder"@[0]);
    assert("fog"@[0] != "storm"@[0]);
    assert("fog"@[0] != "clear"@[0]);
    assert("thunder"@[0] != "storm"@[0]);
    assert("thunder"@[0] != "clear"@[0]);
    assert("storm"@[0] != "clear"@[0]);
}

} // verus!
