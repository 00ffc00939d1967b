use skywallpaper::autostart::run_command_line;
use skywallpaper::cli::{has_flag, lat_lon_args, parse_path_flag};
use skywallpaper::config::LanguagePref;
use skywallpaper::i18n::{initial_status, lang_from_langid, panel_title, pause_label, status_line, t, Lang};

fn args(list: &[&str]) -> Vec<String> {
    list.iter().map(|s| s.to_string()).collect()
}

#[test]
fn run_command_line_quotes_paths_with_spaces() {
    let path: Vec<u16> = r"C:\Program Files\SkyWallpaper\skywallpaper.exe".encode_utf16().collect();
    let wide = run_command_line(&path);
    assert_eq!(*wide.last().unwrap(), 0);
    let text = String::from_utf16(&wide[..wide.len() - 1]).unwrap();
    assert_eq!(text, r#""C:\Program Files\SkyWallpaper\skywallpaper.exe""#);
}

#[test]
fn run_command_line_of_empty_path() {
    assert_eq!(run_command_line(&[]), vec![0x22, 0x22, 0]);
}

#[test]
fn flags_are_found_anywhere() {
    let a = args(&["--preview", "--weather", "rain"]);
    assert!(has_flag(&a, "--preview"));
    assert!(!has_flag(&a, "--debug"));
    assert!(!has_flag(&args(&[]), "--debug"));
}

#[test]
fn flag_values_take_the_next_argument() {
    let a = args(&["--debug-params", "/tmp/p.toml", "--weather", "snow", "--weather", "rain"]);
    assert_eq!(parse_path_flag(&a, "--debug-params"), Some("/tmp/p.toml".to_string()));
    assert_eq!(parse_path_flag(&a, "--weather"), Some("snow".to_string()));
    assert_eq!(parse_path_flag(&a, "--lat"), None);
    assert_eq!(parse_path_flag(&args(&["x", "--weather"]), "--weather"), None);
}

#[test]
fn lat_lon_values_scan_pairs() {
    let a = args(&["--lat", "39.9", "--lon", "116.4"]);
    assert_eq!(lat_lon_args(&a), (Some("39.9".to_string()), Some("116.4".to_string())));
    let b = args(&["--lat", "1", "--lat", "2"]);
    assert_eq!(lat_lon_args(&b), (Some("2".to_string()), None));
    let c = args(&["--lat", "--lon", "5"]);
    assert_eq!(lat_lon_args(&c), (Some("--lon".to_string()), None));
    let d = args(&["x", "--lon", "7", "--lat"]);
    assert_eq!(lat_lon_args(&d), (None, Some("7".to_string())));
}

#[test]
fn language_resolution() {
    assert_eq!(Lang::resolve(LanguagePref::Zh, Lang::En), Lang::Zh);
    assert_eq!(Lang::resolve(LanguagePref::En, Lang::Zh), Lang::En);
    assert_eq!(Lang::resolve(LanguagePref::System, Lang::Zh), Lang::Zh);
    assert_eq!(Lang::resolve(LanguagePref::System, Lang::En), Lang::En);
    assert_eq!(Lang::Zh.code(), "zh");
    assert_eq!(Lang::En.code(), "en");
    assert_eq!(lang_from_langid(0x0804), Lang::Zh);
    assert_eq!(lang_from_langid(0x0404), Lang::Zh);
    assert_eq!(lang_from_langid(0x0409), Lang::En);
    assert_eq!(lang_from_langid(0x0411), Lang::En);
}

#[test]
fn string_tables() {
    let zh = t(Lang::Zh);
    let en = t(Lang::En);
    assert_eq!(zh.app, "天空壁纸");
    assert_eq!(zh.settings, "天空壁纸设置");
    assert_eq!(zh.exit, "退出");
    assert_eq!(en.app, "SkyWallpaper");
    assert_eq!(en.exit, "Quit");
    assert_eq!(en.chinese, "中文");
    assert_eq!(zh.english, "English");
    assert_eq!(panel_title(Lang::Zh), "天空壁纸 Debug");
    assert_eq!(panel_title(Lang::En), "SkyWallpaper Debug");
}

#[test]
fn pause_entry_and_status_line() {
    let en = t(Lang::En);
    assert_eq!(pause_label(&en, false), "Pause wallpaper");
    assert_eq!(pause_label(&en, true), "Resume wallpaper");
    assert_eq!(status_line(&en, false, ""), "Weather · Running");
    assert_eq!(status_line(&en, true, "WMO 3"), "Weather · Paused · WMO 3");
    let zh = t(Lang::Zh);
    assert_eq!(status_line(&zh, false, "WMO 95"), "天气 · 运行中 · WMO 95");
    assert_eq!(initial_status(&en, ""), "Running");
    assert_eq!(initial_status(&en, "IP: no results"), "IP: no results");
}
