//! The tray icon: its menu, and what a click on it does.

use vstd::prelude::*;
use crate::text::str_eq;

verus! {

/// Milliseconds within which a second click on the icon is ignored.
pub const DEBOUNCE_MS: u64 = 500;

/// The label of the application's main window.
pub const MAIN_WINDOW: &'static str = "main";

/// What a menu entry stands for.
#[derive(Clone, Copy, Debug, PartialEq, Eq, Structural)]
pub enum MenuCommand {
    StartKanata,
    StopKanata,
    RestartKanata,
    ShowSettings,
    OpenConfig,
    OpenInstallDir,
    ToggleAutostart,
    Quit,
}

/// The command of the menu entry with the identifier `id`.
pub open spec fn command_of(id: Seq<char>) -> Option<MenuCommand> {
    if id == "kanata_start"@ {
        Some(MenuCommand::StartKanata)
    } else if id == "kanata_stop"@ {
        Some(MenuCommand::StopKanata)
    } else if id == "kanata_restart"@ {
        Some(MenuCommand::RestartKanata)
    } else if id == "settings"@ {
        Some(MenuCommand::ShowSettings)
    } else if id == "open_config"@ {
        Some(MenuCommand::OpenConfig)
    } else if id == "open_dir"@ {
        Some(MenuCommand::OpenInstallDir)
    } else if id == "autostart"@ {
        Some(MenuCommand::ToggleAutostart)
    } else if id == "quit"@ {
        Some(MenuCommand::Quit)
    } else {
        None
    }
}

/// The command of the menu entry that was chosen, or nothing for an entry
/// that does nothing.
pub fn menu_command(id: &str) -> (command: Option<MenuCommand>)
    ensures
        command == command_of(id@),
{
    if str_eq(id, "kanata_start") {
        Some(MenuCommand::StartKanata)
    } else if str_eq(id, "kanata_stop") {
        Some(MenuCommand::StopKanata)
    } else if str_eq(id, "kanata_restart") {
        Some(MenuCommand::RestartKanata)
    } else if str_eq(id, "settings") {
        Some(MenuCommand::ShowSettings)
    } else if str_eq(id, "open_config") {
        Some(MenuCommand::OpenConfig)
    } else if str_eq(id, "open_dir") {
        Some(MenuCommand::OpenInstallDir)
    } else if str_eq(id, "autostart") {
        Some(MenuCommand::ToggleAutostart)
    } else if str_eq(id, "quit") {
        Some(MenuCommand::Quit)
    } else {
        None
    }
}

/// A line of the menu.
#[derive(Clone, Copy, Debug, PartialEq, Eq)]
pub enum MenuItem {
    /// An entry that can be chosen, where it is enabled.
    Entry { id: &'static str, label: &'static str, enabled: bool },
    /// An entry with a check mark.
    Check { id: &'static str, label: &'static str },
    /// A separating line.
    Separator,
}

/// A line of the menu as the contracts see it.
pub enum MenuLine {
    Entry { id: Seq<char>, label: Seq<char>, enabled: bool },
    Check { id: Seq<char>, label: Seq<char> },
    Separator,
}

impl MenuItem {
    /// The line as the contracts see it.
    pub open spec fn view(&self) -> MenuLine {
        match self {
            MenuItem::Entry { id, label, enabled } => MenuLine::Entry {
                id: id@,
                label: label@,
                enabled: *enabled,
            },
            MenuItem::Check { id, label } => MenuLine::Check { id: id@, label: label@ },
            MenuItem::Separator => MenuLine::Separator,
        }
    }
}

/// The lines of a menu as the contracts see them.
pub open spec fn menu_lines(menu: Seq<MenuItem>) -> Seq<MenuLine> {
    Seq::new(menu.len(), |i: int| menu[i]@)
}

/// The menu of the tray icon: the status line, which cannot be chosen, the
/// three controls of the key assignment, the settings and the two folders,
/// the autostart switch, and the exit.
pub open spec fn tray_menu() -> Seq<MenuLine> {
    seq![
        MenuLine::Entry {
            id: "kanata_status"@,
            label: "キー割当（kanata）: 停止中"@,
            enabled: false,
        },
        MenuLine::Entry { id: "kanata_start"@, label: "キー割当（kanata）を開始"@, enabled: true },
        MenuLine::Entry { id: "kanata_stop"@, label: "キー割当（kanata）を停止"@, enabled: true },
        MenuLine::Entry {
            id: "kanata_restart"@,
            label: "キー割当（kanata）を再起動"@,
            enabled: true,
        },
        MenuLine::Separator,
        MenuLine::Entry { id: "settings"@, label: "設定..."@, enabled: true },
        MenuLine::Entry { id: "open_config"@, label: "config.toml を開く"@, enabled: true },
        MenuLine::Entry { id: "open_dir"@, label: "インストール先を開く"@, enabled: true },
        MenuLine::Separator,
        MenuLine::Check { id: "autostart"@, label: "ログイン時に自動起動"@ },
        MenuLine::Separator,
        MenuLine::Entry { id: "quit"@, label: "終了"@, enabled: true },
    ]
}

/// The menu of the tray icon.
pub fn build_tray() -> (menu: Vec<MenuItem>)
    ensures
        menu_lines(menu@) == tray_menu(),
{
    let mut menu: Vec<MenuItem> = Vec::new();
    menu.push(
        MenuItem::Entry {
            id: "kanata_status",
            label: "キー割当（kanata）: 停止中",
            enabled: false,
        },
    );
    menu.push(
        MenuItem::Entry { id: "kanata_start", label: "キー割当（kanata）を開始", enabled: true },
    );
    menu.push(
        MenuItem::Entry { id: "kanata_stop", label: "キー割当（kanata）を停止", enabled: true },
    );
    menu.push(
        MenuItem::Entry {
            id: "kanata_restart",
            label: "キー割当（kanata）を再起動",
            enabled: true,
        },
    );
    menu.push(MenuItem::Separator);
    menu.push(MenuItem::Entry { id: "settings", label: "設定...", enabled: true });
    menu.push(MenuItem::Entry { id: "open_config", label: "config.toml を開く", enabled: true });
    menu.push(MenuItem::Entry { id: "open_dir", label: "インストール先を開く", enabled: true });
    menu.push(MenuItem::Separator);
    menu.push(MenuItem::Check { id: "autostart", label: "ログイン時に自動起動" });
    menu.push(MenuItem::Separator);
    menu.push(MenuItem::Entry { id: "quit", label: "終了", enabled: true });
    assert(menu_lines(menu@) =~= tray_menu());
    menu
}

/// Whether a click on the icon counts: not within the debounce time of the
/// click before it.
pub fn accept_click(elapsed_ms: u128) -> (accepted: bool)
    ensures
        accepted == (elapsed_ms >= DEBOUNCE_MS),
{
    elapsed_ms >= DEBOUNCE_MS as u128
}

/// What a click on the icon does to the main window.
#[derive(Clone, Copy, Debug, PartialEq, Eq, Structural)]
pub enum WindowAction {
    Hide,
    ShowAndFocus,
}

/// A click on the icon hides the window where it is visible and shows it
/// where it is not.
pub fn toggle_window(visible: bool) -> (action: WindowAction)
    ensures
        action == (if visible {
            WindowAction::Hide
        } else {
            WindowAction::ShowAndFocus
        }),
{
    if visible {
        WindowAction::Hide
    } else {
        WindowAction::ShowAndFocus
    }
}

/// Whether the autostart is to be switched on, given whether it is on now.
pub fn toggle_autostart(enabled: bool) -> (enable: bool)
    ensures
        enable == !enabled,
{
    !enabled
}

/// Whether closing the window `label` only hides it: the main window stays
/// in the tray, every other window closes.
pub fn hides_on_close(label: &str) -> (hide: bool)
    ensures
        hide == (label@ == MAIN_WINDOW@),
{
    str_eq(label, MAIN_WINDOW)
}

/// Whether a request to exit is turned down: the application stays in the
/// tray when its last window closes, and exits when asked to with a code.
pub fn keeps_running(exit_code: Option<i32>) -> (stay: bool)
    ensures
        stay == (exit_code is None),
{
    exit_code.is_none()
}

} // verus!
