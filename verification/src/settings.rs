use vstd::prelude::*;

use crate::config::{LanguagePref, LocationMode};
use vstd::string::StringExecFns;

use crate::geo::{error_message, PlaceHit, WeatherError};

verus! {

/// What happened in the settings window, with the answer of any request it
/// made already in hand.
#[derive(Debug)]
pub enum SettingsMessage {
    /// The search text was edited.
    Query(String),
    /// A place search was made for the current search text.
    Search(Result<Vec<PlaceHit>, WeatherError>),
    /// An IP location was asked for; on success, the label of the place.
    UseIp(Result<String, WeatherError>),
    /// A language was picked.
    Lang(LanguagePref),
    /// "Start with Windows" was toggled.
    Autostart(bool),
    /// "Pause on fullscreen" was toggled.
    PauseFullscreen(bool),
    /// The pause button was pressed.
    TogglePause,
    /// "Refresh weather" was pressed.
    RefreshWeather,
}

/// The change the settings window makes in answer to a message.
#[derive(Debug, Clone, PartialEq, Eq)]
pub enum SettingsAction {
    /// Remember the search text.
    SetQuery(String),
    /// Move the observer to the search hit with this index (saving the
    /// configuration and asking for fresh weather), and show `status`.
    Locate { hit: usize, mode: LocationMode, status: String },
    /// Move the observer to the IP location (mode `Ip`), and show `status`.
    LocateFromIp { status: String },
    /// Only show a status message.
    Status(String),
    /// Store the language preference.
    SetLanguage(LanguagePref),
    /// Store the autostart choice and register or remove the autostart entry.
    SetAutostart(bool),
    /// Store the pause-on-fullscreen choice.
    SetPauseOnFullscreen(bool),
    /// Pause or resume the wallpaper.
    TogglePause,
    /// Ask for fresh weather.
    RefreshWeather,
}

/// The status shown after a search that found nothing usable.
pub open spec fn no_hit_status() -> Seq<char> {
    "…"@
}

/// Decides what the settings window does with a message: the first search
/// hit overrides the location (as a manual choice) and labels the status; an
/// empty or failed search only shows `…`; a successful IP lookup moves the
/// observer back to the IP location; a failed one shows its error; every
/// other message maps onto its own change.
pub fn settings_action(message: SettingsMessage) -> (action: SettingsAction)
    ensures
        (match message {
            SettingsMessage::Query(q) => action == SettingsAction::SetQuery(q),
            SettingsMessage::Search(Ok(h)) => if h@.len() > 0 {
                &&& action is Locate
                &&& action->hit == h@[0].index
                &&& action->mode == LocationMode::Manual
                &&& action->Locate_status@ == h@[0].label@
            } else {
                action is Status && action->Status_0@ == no_hit_status()
            },
            SettingsMessage::Search(Err(_)) => action is Status && action->Status_0@ == no_hit_status(),
            SettingsMessage::UseIp(Ok(l)) => action is LocateFromIp && action->LocateFromIp_status@ == l@,
            SettingsMessage::UseIp(Err(e)) => action is Status && action->Status_0@ == error_message(e),
            SettingsMessage::Lang(p) => action == SettingsAction::SetLanguage(p),
            SettingsMessage::Autostart(on) => action == SettingsAction::SetAutostart(on),
            SettingsMessage::PauseFullscreen(on) => action == SettingsAction::SetPauseOnFullscreen(on),
            SettingsMessage::TogglePause => action == SettingsAction::TogglePause,
            SettingsMessage::RefreshWeather => action == SettingsAction::RefreshWeather,
        }),
{
    match message {
        SettingsMessage::Query(q) => SettingsAction::SetQuery(q),
        SettingsMessage::Search(result) => match result {
            Ok(hits) => {
                if hits.len() > 0 {
                    let first = &hits[0];
                    SettingsAction::Locate { hit: first.index, mode: LocationMode::Manual, status: first.label.clone() }
                } else {
                    SettingsAction::Status(String::from_str("…"))
                }
            },
            Err(_) => SettingsAction::Status(String::from_str("…")),
        },
        SettingsMessage::UseIp(result) => match result {
            Ok(label) => SettingsAction::LocateFromIp { status: label },
            Err(e) => SettingsAction::Status(e.message()),
        },
        SettingsMessage::Lang(p) => SettingsAction::SetLanguage(p),
        SettingsMessage::Autostart(on) => SettingsAction::SetAutostart(on),
        SettingsMessage::PauseFullscreen(on) => SettingsAction::SetPauseOnFullscreen(on),
        SettingsMessage::TogglePause => SettingsAction::TogglePause,
        SettingsMessage::RefreshWeather => SettingsAction::RefreshWeather,
    }
}

} // verus!
