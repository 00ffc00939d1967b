use vstd::prelude::*;
use vstd::string::StringExecFns;

use crate::config::LocationMode;
use crate::geo::{error_message, WeatherError};
use crate::text::push_char;
use crate::weather_map::WeatherCode;

verus! {

/// Decimal digits of a number, most significant first.
pub open spec fn decimal(n: nat) -> Seq<char>
    decreases n,
{
    if n < 10 {
        seq![(('0' as u8) + (n as u8)) as char]
    } else {
        decimal(n / 10).push((('0' as u8) + ((n % 10) as u8)) as char)
    }
}

/// The decimal text of a byte.
pub fn decimal_text(n: u8) -> (s: String)
    ensures
        s@ == decimal(n as nat),
{
    let mut s = String::new();
    let ones = (('0' as u8) + n % 10) as char;
    if n >= 100 {
        let hundreds = (('0' as u8) + n / 100) as char;
        let tens = (('0' as u8) + (n / 10) % 10) as char;
        push_char(&mut s, hundreds);
        push_char(&mut s, tens);
        push_char(&mut s, ones);
        proof {
            let m = (n / 10) as nat;
            assert(m / 10 == (n / 100) as nat);
            assert(decimal((n / 100) as nat) == seq![hundreds]);
            assert(decimal(m) == seq![hundreds].push(tens));
            assert(decimal(n as nat) == decimal(m).push(ones));
            assert(s@ =~= seq![hundreds, tens, ones]);
        }
    } else if n >= 10 {
        let tens = (('0' as u8) + n / 10) as char;
        push_char(&mut s, tens);
        push_char(&mut s, ones);
        proof {
            assert(decimal((n / 10) as nat) == seq![tens]);
            assert(s@ =~= seq![tens, ones]);
        }
    } else {
        push_char(&mut s, ones);
        proof {
            assert(s@ =~= seq![ones]);
        }
    }
    s
}

/// How a weather refresh ends.
#[derive(Debug, Clone, PartialEq, Eq)]
pub enum WeatherRefresh {
    /// Use the fetched weather; show `status`.
    Apply { status: String },
    /// Fall back to the clear-sky weather; show `status`.
    Fallback { status: String },
}

/// Decides how a weather request ends: fetched weather is used and its WMO
/// code shown; any failure falls back to a clear sky and shows why.
pub fn weather_refresh(outcome: &Result<WeatherCode, WeatherError>) -> (r: WeatherRefresh)
    ensures
        (match outcome {
            Ok(code) => r is Apply && r->Apply_status@ == "WMO "@ + decimal(code.0 as nat),
            Err(e) => r is Fallback && r->Fallback_status@ == "weather fallback: "@ + error_message(*e),
        }),
{
    match outcome {
        Ok(code) => {
            let mut status = String::from_str("WMO ");
            let digits = decimal_text(code.0);
            status.append(digits.as_str());
            WeatherRefresh::Apply { status }
        },
        Err(e) => {
            let mut status = String::from_str("weather fallback: ");
            let m = e.message();
            status.append(m.as_str());
            WeatherRefresh::Fallback { status }
        },
    }
}

/// Whether the startup lookup of the IP location runs in this mode.
pub open spec fn spec_wants_ip_location(mode: LocationMode) -> bool {
    mode == LocationMode::Ip
}

/// Whether the location is looked up from the IP address at startup: only
/// when the user has not picked a place.
pub fn wants_ip_location(mode: LocationMode) -> (yes: bool)
    ensures
        yes == spec_wants_ip_location(mode),
{
    match mode {
        LocationMode::Ip => true,
        LocationMode::Manual => false,
    }
}

/// A place picked from a search outlives a restart: the search stores the
/// manual mode, and in that mode the startup IP lookup does not run.
pub proof fn lemma_searched_place_outlives_startup(mode: LocationMode)
    requires
        mode == LocationMode::Manual,
    ensures
        !spec_wants_ip_location(mode),
{
}

/// How the startup IP lookup ends.
#[derive(Debug, Clone, PartialEq, Eq)]
pub enum StartupLocation {
    /// Move the observer to the IP location (mode `Ip`).
    Locate,
    /// Keep the stored location; show `status`.
    Keep(String),
}

/// Decides the end of the startup IP lookup: a found place becomes the
/// location, a failure keeps the stored one and says why.
pub fn startup_location(outcome: &Result<(), WeatherError>) -> (r: StartupLocation)
    ensures
        (match outcome {
            Ok(_) => r is Locate,
            Err(e) => r is Keep && r->Keep_0@ == "IP: "@ + error_message(*e),
        }),
{
    match outcome {
        Ok(_) => StartupLocation::Locate,
        Err(e) => {
            let mut status = String::from_str("IP: ");
            let m = e.message();
            status.append(m.as_str());
            StartupLocation::Keep(status)
        },
    }
}

} // verus!
