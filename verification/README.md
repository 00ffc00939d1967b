# skywallpaper

The decision logic of a live desktop wallpaper whose sky follows the local
time and the weather reported by Open-Meteo, written in Verus and proved
against its contracts.

## Layout

- `src/` — the verified library.
  - `power` — frame rate from pause, fullscreen, occlusion and battery
    state; frame pacing of the host loop.
  - `desktop` — monitor placement relative to the shell host, the
    fullscreen test, shell window classes, occlusion and rebuild decisions.
  - `tray` — routing of tray icon clicks and menu entries to commands.
  - `offscreen` — quarter-resolution offscreen extents, mip counts and the
    size-keyed cache of render targets.
  - `weather_map` — what a WMO weather code says about the sky; weather
    presets.
  - `query` — percent-encoding of query values, with the proof that a
    server decodes them back to the encoded text.
  - `geo` — weather/geocoder errors, geocoder requests, hit selection and
    labels, IP-location replies.
  - `calendar` — days since the last winter solstice (through chrono), the
    civil time of a second of the day, stepping over clock gaps.
  - `settings` — what the settings window does with each message (a search
    hit overrides the location, an IP lookup restores it).
  - `worker` — the weather worker's decisions: IP lookup at startup, the
    clear-sky fallback and the status shown after a refresh.
  - `i18n`, `config` — languages, string tables, stored preferences.
  - `cli`, `autostart` — command-line flags and the autostart command line.
  - `text` — string helpers.
- `tests/` — tests of the library.
- `app/` — the program around it: configuration file, HTTP requests, the
  floating-point sun and weather model, the shader inputs, the host loop
  and a text-mode settings session on standard input.
