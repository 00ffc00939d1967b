use vstd::prelude::*;

verus! {

/// Identifiers of the tray menu entries.
#[derive(Debug, Clone, PartialEq, Eq)]
pub struct TrayIds {
    pub settings: String,
    pub pause: String,
    pub quit: String,
}

/// What the host does in answer to the tray.
#[derive(Debug, Clone, Copy, PartialEq, Eq, Structural)]
pub enum TrayCommand {
    /// Open the settings window (a second request while it is open is
    /// ignored by the window itself).
    OpenSettings,
    /// Pause or resume drawing and relabel the menu entry.
    TogglePause,
    /// Shut the wallpaper down.
    Quit,
}

/// The command of a menu entry, or `None` for an entry the host does not
/// know.
pub open spec fn spec_route(ids: TrayIds, id: Seq<char>) -> Option<TrayCommand> {
    if id == ids.settings@ {
        Some(TrayCommand::OpenSettings)
    } else if id == ids.pause@ {
        Some(TrayCommand::TogglePause)
    } else if id == ids.quit@ {
        Some(TrayCommand::Quit)
    } else {
        None
    }
}

/// The command a clicked menu entry stands for.
pub fn route_menu(ids: &TrayIds, id: &String) -> (command: Option<TrayCommand>)
    ensures
        command == spec_route(*ids, id@),
{
    if *id == ids.settings {
        Some(TrayCommand::OpenSettings)
    } else if *id == ids.pause {
        Some(TrayCommand::TogglePause)
    } else if *id == ids.quit {
        Some(TrayCommand::Quit)
    } else {
        None
    }
}

/// Commands for one poll of the tray, in the order they are carried out:
/// a click on the icon opens the settings, then the menu entry picked (if
/// any) is obeyed.
pub open spec fn spec_tray_commands(ids: TrayIds, icon_clicked: bool, menu: Option<Seq<char>>) -> Seq<TrayCommand> {
    let first: Seq<TrayCommand> = if icon_clicked { seq![TrayCommand::OpenSettings] } else { Seq::empty() };
    match menu {
        Some(id) => match spec_route(ids, id) {
            Some(c) => first.push(c),
            None => first,
        },
        None => first,
    }
}

/// The commands one poll of the tray calls for.
pub fn tray_commands(ids: &TrayIds, icon_clicked: bool, menu: Option<String>) -> (commands: Vec<TrayCommand>)
    ensures
        commands@ == spec_tray_commands(*ids, icon_clicked, match menu { Some(m) => Some(m@), None => None }),
{
    let mut commands: Vec<TrayCommand> = Vec::new();
    if icon_clicked {
        commands.push(TrayCommand::OpenSettings);
    }
    if let Some(id) = menu {
        if let Some(c) = route_menu(ids, &id) {
            commands.push(c);
        }
    }
    commands
}

/// With distinct menu identifiers, each entry maps to its own command, and
/// an unknown entry maps to none.
pub proof fn lemma_route_distinct(ids: TrayIds, id: Seq<char>)
    requires
        ids.settings@ != ids.pause@,
        ids.settings@ != ids.quit@,
        ids.pause@ != ids.quit@,
    ensures
        spec_route(ids, ids.settings@) == Some(TrayCommand::OpenSettings),
        spec_route(ids, ids.pause@) == Some(TrayCommand::TogglePause),
        spec_route(ids, ids.quit@) == Some(TrayCommand::Quit),
        (id != ids.settings@ && id != ids.pause@ && id != ids.quit@) ==> spec_route(ids, id) is None,
{
}

/// A click on the tray icon always opens the settings first, and a poll
/// yields at most two commands.
pub proof fn lemma_click_opens_settings(ids: TrayIds, icon_clicked: bool, menu: Option<Seq<char>>)
    ensures
        icon_clicked ==> spec_tray_commands(ids, icon_clicked, menu)[0] == TrayCommand::OpenSettings,
        spec_tray_commands(ids, icon_clicked, menu).len() <= 2,
        !icon_clicked && menu is None ==> spec_tray_commands(ids, icon_clicked, menu).len() == 0,
{
}
/// A known menu entry is obeyed whatever the icon did: its command comes
/// last, alone when the icon was not clicked and right after opening the
/// settings when it was; an unknown entry adds nothing.
pub proof fn lemma_menu_entry_obeyed(ids: TrayIds, icon_clicked: bool, id: Seq<char>)
    ensures
        spec_route(ids, id) matches Some(c) ==> {
            &&& spec_tray_commands(ids, icon_clicked, Some(id)).last() == c
            &&& !icon_clicked ==> spec_tray_commands(ids, icon_clicked, Some(id)) == seq![c]
            &&& icon_clicked ==> spec_tray_commands(ids, icon_clicked, Some(id)) == seq![TrayCommand::OpenSettings, c]
        },
        spec_route(ids, id) is None ==> spec_tray_commands(ids, icon_clicked, Some(id)) == spec_tray_commands(
            ids,
            icon_clicked,
            None,
        ),
        icon_clicked ==> spec_tray_commands(ids, icon_clicked, None) == seq![TrayCommand::OpenSettings],
{
}

/// With distinct identifiers, picking Settings, Pause or Quit from the menu
/// (with no click on the icon) calls for exactly that command.
pub proof fn lemma_menu_picks(ids: TrayIds)
    requires
        ids.settings@ != ids.pause@,
        ids.settings@ != ids.quit@,
        ids.pause@ != ids.quit@,
    ensures
        spec_tray_commands(ids, false, Some(ids.settings@)) == seq![TrayCommand::OpenSettings],
        spec_tray_commands(ids, false, Some(ids.pause@)) == seq![TrayCommand::TogglePause],
        spec_tray_commands(ids, false, Some(ids.quit@)) == seq![TrayCommand::Quit],
{
}
} // verus!
