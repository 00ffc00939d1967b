//! Decision logic of a live sky wallpaper: frame pacing, desktop host
//! bookkeeping, localisation, weather-code interpretation, geocoding
//! request building and the offscreen target cache of the renderer.

pub mod power;
pub mod config;
pub mod i18n;
pub mod text;
pub mod weather_map;
pub mod query;
pub mod geo;
pub mod offscreen;
pub mod desktop;
pub mod tray;
pub mod autostart;
pub mod cli;
pub mod calendar;
pub mod settings;
pub mod worker;
