use skywallpaper::desktop::{
    all_hidden, covers, host_broken, is_shell_class, layouts_equal, monitor_relative,
    monitors_or_default, needs_rebuild, MonitorRect, Rect,
};
use skywallpaper::power::{due_chores, pace_frame, target_fps, Chores, Pace};
use skywallpaper::tray::{route_menu, tray_commands, TrayCommand, TrayIds};

#[test]
fn fps_pauses_for_fullscreen_and_manual_pause() {
    assert_eq!(target_fps(false, false, false, false), 30);
    assert_eq!(target_fps(false, true, false, false), 15);
    assert_eq!(target_fps(true, false, false, false), 0);
    assert_eq!(target_fps(false, false, true, false), 0);
    assert_eq!(target_fps(true, true, true, false), 0);
    assert_eq!(target_fps(false, false, false, true), 1);
    assert_eq!(target_fps(false, true, false, true), 1);
    assert_eq!(target_fps(true, false, false, true), 0);
}

#[test]
fn turning_a_condition_on_never_speeds_up() {
    for bits in 0u8..16 {
        let p = bits & 1 != 0;
        let b = bits & 2 != 0;
        let f = bits & 4 != 0;
        let o = bits & 8 != 0;
        let base = target_fps(p, b, f, o);
        assert!(target_fps(true, b, f, o) <= base);
        assert!(target_fps(p, true, f, o) <= base);
        assert!(target_fps(p, b, true, o) <= base);
        assert!(target_fps(p, b, f, true) <= base);
        assert!([0, 1, 15, 30].contains(&base));
    }
}

#[test]
fn pacing_sleeps_until_due_then_draws() {
    assert_eq!(pace_frame(0, 0), Pace::Sleep(200_000_000));
    assert_eq!(pace_frame(0, u64::MAX), Pace::Sleep(200_000_000));
    // 30 fps: 33_333_333 ns per frame.
    assert_eq!(pace_frame(30, 0), Pace::Sleep(16_000_000));
    assert_eq!(pace_frame(30, 30_000_000), Pace::Sleep(3_333_333));
    assert_eq!(pace_frame(30, 33_333_333), Pace::Draw);
    assert_eq!(pace_frame(1, 999_999_999), Pace::Sleep(1));
    assert_eq!(pace_frame(1, 1_000_000_000), Pace::Draw);
    assert_eq!(pace_frame(15, 66_666_665), Pace::Sleep(1));
}

fn rect(left: i32, top: i32, right: i32, bottom: i32) -> Rect {
    Rect { left, top, right, bottom }
}

#[test]
fn fullscreen_window_covers_with_slop() {
    let monitor = rect(0, 0, 1920, 1080);
    assert!(covers(monitor, monitor));
    assert!(covers(rect(4, 4, 1916, 1076), monitor));
    assert!(!covers(rect(5, 0, 1920, 1080), monitor));
    assert!(!covers(rect(0, 0, 1915, 1080), monitor));
    assert!(!covers(rect(100, 100, 800, 600), monitor));
    assert!(covers(rect(-8, -8, 1928, 1088), monitor));
}

fn units(s: &str) -> Vec<u16> {
    s.encode_utf16().collect()
}

#[test]
fn shell_classes_are_never_fullscreen_apps() {
    for name in ["Progman", "WorkerW", "Shell_TrayWnd", "Shell_SecondaryTrayWnd", "SkyWallpaperSurface"] {
        assert!(is_shell_class(&units(name)), "{name}");
    }
    assert!(!is_shell_class(&units("Chrome_WidgetWin_1")));
    assert!(!is_shell_class(&units("progman")));
    assert!(!is_shell_class(&units("WorkerWX")));
    assert!(!is_shell_class(&units("")));
}

#[test]
fn monitors_are_placed_relative_to_the_host() {
    let parent = rect(-1920, 0, 1920, 1080);
    let right = monitor_relative(rect(0, 0, 1920, 1080), parent);
    assert_eq!(right, MonitorRect { x: 1920, y: 0, width: 1920, height: 1080 });
    let empty = monitor_relative(rect(10, 10, 10, 5), rect(0, 0, 0, 0));
    assert_eq!(empty, MonitorRect { x: 10, y: 10, width: 1, height: 1 });
}

#[test]
fn no_monitor_falls_back_to_full_hd() {
    assert_eq!(
        monitors_or_default(Vec::new()),
        vec![MonitorRect { x: 0, y: 0, width: 1920, height: 1080 }]
    );
    let one = vec![MonitorRect { x: 5, y: 6, width: 7, height: 8 }];
    assert_eq!(monitors_or_default(one.clone()), one);
}

#[test]
fn occlusion_needs_every_surface_hidden() {
    assert!(!all_hidden(&vec![]));
    assert!(all_hidden(&vec![true]));
    assert!(all_hidden(&vec![true, true]));
    assert!(!all_hidden(&vec![true, false]));
}

#[test]
fn rebuild_when_host_breaks_or_layout_moves() {
    let a = vec![(0, 0, 1920u32, 1080u32)];
    let b = vec![(0, 0, 2560u32, 1440u32)];
    assert!(layouts_equal(&a, &a.clone()));
    assert!(!layouts_equal(&a, &b));
    assert!(!layouts_equal(&a, &vec![]));
    assert!(host_broken(false, 1, 1));
    assert!(host_broken(true, 2, 1));
    assert!(!host_broken(true, 1, 1));
    assert!(needs_rebuild(true, false, &a, &a));
    assert!(needs_rebuild(false, true, &a, &a));
    assert!(needs_rebuild(false, false, &a, &b));
    assert!(!needs_rebuild(false, false, &a, &a));
}

fn ids() -> TrayIds {
    TrayIds { settings: "1".to_string(), pause: "2".to_string(), quit: "3".to_string() }
}

#[test]
fn tray_menu_routes_to_commands() {
    let ids = ids();
    assert_eq!(route_menu(&ids, &"1".to_string()), Some(TrayCommand::OpenSettings));
    assert_eq!(route_menu(&ids, &"2".to_string()), Some(TrayCommand::TogglePause));
    assert_eq!(route_menu(&ids, &"3".to_string()), Some(TrayCommand::Quit));
    assert_eq!(route_menu(&ids, &"4".to_string()), None);
}

#[test]
fn tray_click_opens_settings_before_menu_command() {
    let ids = ids();
    assert_eq!(tray_commands(&ids, false, None), vec![]);
    assert_eq!(tray_commands(&ids, true, None), vec![TrayCommand::OpenSettings]);
    assert_eq!(
        tray_commands(&ids, true, Some("3".to_string())),
        vec![TrayCommand::OpenSettings, TrayCommand::Quit]
    );
    assert_eq!(tray_commands(&ids, false, Some("9".to_string())), vec![]);
}

#[test]
fn health_every_half_second_weather_every_twenty_minutes() {
    assert_eq!(due_chores(0, 0), Chores { health: false, weather: false });
    assert_eq!(due_chores(499, 1_199_999), Chores { health: false, weather: false });
    assert_eq!(due_chores(500, 1_200_000), Chores { health: true, weather: true });
    assert_eq!(due_chores(10_000, 5), Chores { health: true, weather: false });
}
