use vstd::prelude::*;

use vstd::string::{StrSliceExecFns, StringExecFns};

use crate::config::LanguagePref;

verus! {

/// Interface language.
#[derive(Debug, Clone, Copy, PartialEq, Eq, Structural)]
pub enum Lang {
    Zh,
    En,
}

/// The language a preference resolves to, given the system language.
pub open spec fn spec_resolve(pref: LanguagePref, system: Lang) -> Lang {
    match pref {
        LanguagePref::Zh => Lang::Zh,
        LanguagePref::En => Lang::En,
        LanguagePref::System => system,
    }
}

impl Lang {
    /// Resolves a stored preference; `system` is the language the operating
    /// system reports for its UI, consulted only for `LanguagePref::System`.
    pub fn resolve(pref: LanguagePref, system: Lang) -> (lang: Lang)
        ensures
            lang == spec_resolve(pref, system),
    {
        match pref {
            LanguagePref::Zh => Lang::Zh,
            LanguagePref::En => Lang::En,
            LanguagePref::System => system,
        }
    }

    /// Two-letter language code.
    pub fn code(self) -> (code: &'static str)
        ensures
            self == Lang::Zh ==> code@ == "zh"@,
            self == Lang::En ==> code@ == "en"@,
    {
        match self {
            Lang::Zh => "zh",
            Lang::En => "en",
        }
    }
}

/// The language of the system UI from its primary language identifier
/// (the low ten bits of a Windows LANGID): Chinese for `0x04`, English for
/// everything else.
pub fn lang_from_langid(langid: u16) -> (lang: Lang)
    ensures
        lang == (if langid & 0x3FF == 0x04 { Lang::Zh } else { Lang::En }),
{
    let primary = langid & 0x3FF;
    if primary == 0x04 {
        Lang::Zh
    } else {
        Lang::En
    }
}

/// Title of the sky tuning panel.
pub fn panel_title(lang: Lang) -> (title: &'static str)
    ensures
        lang == Lang::Zh ==> title@ == "天空壁纸 Debug"@,
        lang == Lang::En ==> title@ == "SkyWallpaper Debug"@,
{
    match lang {
        Lang::Zh => "天空壁纸 Debug",
        Lang::En => "SkyWallpaper Debug",
    }
}

/// Every user-facing string of the settings window and tray menu.
#[derive(Debug, Clone, Copy)]
pub struct Text {
    pub app: &'static str,
    pub settings: &'static str,
    pub location: &'static str,
    pub search: &'static str,
    pub use_ip: &'static str,
    pub language: &'static str,
    pub follow_system: &'static str,
    pub chinese: &'static str,
    pub english: &'static str,
    pub autostart: &'static str,
    pub pause_fullscreen: &'static str,
    pub pause: &'static str,
    pub resume: &'static str,
    pub refresh_weather: &'static str,
    pub exit: &'static str,
    pub open_settings: &'static str,
    pub weather: &'static str,
    pub running: &'static str,
    pub paused: &'static str,
    pub about: &'static str,
}

/// The Chinese string table.
pub open spec fn is_zh_text(x: Text) -> bool {
    &&& x.app@ == "天空壁纸"@
    &&& x.settings@ == "天空壁纸设置"@
    &&& x.location@ == "地点"@
    &&& x.search@ == "搜索"@
    &&& x.use_ip@ == "使用 IP 粗定位"@
    &&& x.language@ == "语言"@
    &&& x.follow_system@ == "跟随系统"@
    &&& x.chinese@ == "中文"@
    &&& x.english@ == "English"@
    &&& x.autostart@ == "开机自启"@
    &&& x.pause_fullscreen@ == "全屏游戏时暂停"@
    &&& x.pause@ == "暂停壁纸"@
    &&& x.resume@ == "继续壁纸"@
    &&& x.refresh_weather@ == "刷新天气"@
    &&& x.exit@ == "退出"@
    &&& x.open_settings@ == "设置"@
    &&& x.weather@ == "天气"@
    &&& x.running@ == "运行中"@
    &&& x.paused@ == "已暂停"@
    &&& x.about@ == "天色随本地时间变化。天气来自 Open-Meteo，失败时回退晴天。"@
}

/// The English string table.
pub open spec fn is_en_text(x: Text) -> bool {
    &&& x.app@ == "SkyWallpaper"@
    &&& x.settings@ == "SkyWallpaper Settings"@
    &&& x.location@ == "Location"@
    &&& x.search@ == "Search"@
    &&& x.use_ip@ == "Use IP location"@
    &&& x.language@ == "Language"@
    &&& x.follow_system@ == "System"@
    &&& x.chinese@ == "中文"@
    &&& x.english@ == "English"@
    &&& x.autostart@ == "Start with Windows"@
    &&& x.pause_fullscreen@ == "Pause on fullscreen"@
    &&& x.pause@ == "Pause wallpaper"@
    &&& x.resume@ == "Resume wallpaper"@
    &&& x.refresh_weather@ == "Refresh weather"@
    &&& x.exit@ == "Quit"@
    &&& x.open_settings@ == "Settings"@
    &&& x.weather@ == "Weather"@
    &&& x.running@ == "Running"@
    &&& x.paused@ == "Paused"@
    &&& x.about@ == "Sky color follows local time. Weather from Open-Meteo; failures fall back to clear sky."@
}

/// The string table for `lang`.
pub fn t(lang: Lang) -> (text: Text)
    ensures
        lang == Lang::Zh ==> is_zh_text(text),
        lang == Lang::En ==> is_en_text(text),
{
    match lang {
        Lang::Zh => Text {
            app: "天空壁纸",
            settings: "天空壁纸设置",
            location: "地点",
            search: "搜索",
            use_ip: "使用 IP 粗定位",
            language: "语言",
            follow_system: "跟随系统",
            chinese: "中文",
            english: "English",
            autostart: "开机自启",
            pause_fullscreen: "全屏游戏时暂停",
            pause: "暂停壁纸",
            resume: "继续壁纸",
            refresh_weather: "刷新天气",
            exit: "退出",
            open_settings: "设置",
            weather: "天气",
            running: "运行中",
            paused: "已暂停",
            about: "天色随本地时间变化。天气来自 Open-Meteo，失败时回退晴天。",
        },
        Lang::En => Text {
            app: "SkyWallpaper",
            settings: "SkyWallpaper Settings",
            location: "Location",
            search: "Search",
            use_ip: "Use IP location",
            language: "Language",
            follow_system: "System",
            chinese: "中文",
            english: "English",
            autostart: "Start with Windows",
            pause_fullscreen: "Pause on fullscreen",
            pause: "Pause wallpaper",
            resume: "Resume wallpaper",
            refresh_weather: "Refresh weather",
            exit: "Quit",
            open_settings: "Settings",
            weather: "Weather",
            running: "Running",
            paused: "Paused",
            about: "Sky color follows local time. Weather from Open-Meteo; failures fall back to clear sky.",
        },
    }
}


/// Label of the pause entry: what clicking it will do.
pub fn pause_label(text: &Text, paused: bool) -> (label: &'static str)
    ensures
        label == (if paused { text.resume } else { text.pause }),
{
    if paused {
        text.resume
    } else {
        text.pause
    }
}

/// The status line of the settings window: the weather heading, whether the
/// wallpaper runs, and the last status message when there is one, separated
/// by ` · `.
pub open spec fn spec_status_line(text: Text, paused: bool, status: Seq<char>) -> Seq<char> {
    let run = if paused { text.paused@ } else { text.running@ };
    if status.len() == 0 {
        text.weather@ + " · "@ + run
    } else {
        text.weather@ + " · "@ + run + " · "@ + status
    }
}

/// Builds the status line of the settings window.
pub fn status_line(text: &Text, paused: bool, status: &str) -> (line: String)
    ensures
        line@ == spec_status_line(*text, paused, status@),
{
    let run = if paused { text.paused } else { text.running };
    let mut line = String::new();
    line.append(text.weather);
    line.append(" · ");
    line.append(run);
    if status.unicode_len() != 0 {
        line.append(" · ");
        line.append(status);
    }
    line
}

/// The status shown when the settings window opens: the last status
/// message, or "running" when there is none.
pub fn initial_status(text: &Text, status: &str) -> (shown: String)
    ensures
        status@.len() == 0 ==> shown@ == text.running@,
        status@.len() != 0 ==> shown@ == status@,
{
    let mut shown = String::new();
    if status.unicode_len() == 0 {
        shown.append(text.running);
    } else {
        shown.append(status);
    }
    shown
}

/// An explicit language preference ignores the system language, and the
/// two languages have different codes.
pub proof fn lemma_explicit_preference_wins(system: Lang)
    ensures
        spec_resolve(LanguagePref::Zh, system) == Lang::Zh,
        spec_resolve(LanguagePref::En, system) == Lang::En,
        spec_resolve(LanguagePref::System, system) == system,
        "zh"@ != "en"@,
{
    reveal_strlit("zh");
    reveal_strlit("en");
    assert("zh"@[0] != "en"@[0]);
}
} // verus!
