//! From tray and menu events to the actions they ask for.
//!
//! The functions here only decide. Carrying an action out (changing the
//! mode, toggling a switch, opening a directory, leaving the process) is left
//! to the caller, and so is the reconciliation pass that must follow an
//! action that changes what the tray reflects.

use crate::config::{option_text, ProxyMode};
use crate::menu::MenuId;
use crate::strings::str_eq;
use vstd::prelude::*;

verus! {

/// A directory that the file browser can be pointed at.
#[derive(Clone, Copy, Debug, PartialEq, Eq, Structural)]
pub enum Directory {
    App,
    Core,
    Logs,
}

/// What an event asks the application to do.
#[derive(Clone, Copy, Debug, PartialEq, Eq, Structural)]
pub enum TrayAction {
    ChangeMode(ProxyMode),
    ShowMainWindow,
    ToggleSystemProxy,
    ToggleServiceMode,
    ToggleTunMode,
    CopyEnv,
    OpenDirectory(Directory),
    RestartCore,
    RestartApp,
    Quit,
    Nothing,
}

/// The action behind each menu item. The version entry is a label and asks
/// for nothing.
pub open spec fn menu_action(id: MenuId) -> TrayAction {
    match id {
        MenuId::OpenWindow => TrayAction::ShowMainWindow,
        MenuId::RuleMode => TrayAction::ChangeMode(ProxyMode::Rule),
        MenuId::GlobalMode => TrayAction::ChangeMode(ProxyMode::Global),
        MenuId::DirectMode => TrayAction::ChangeMode(ProxyMode::Direct),
        MenuId::SystemProxy => TrayAction::ToggleSystemProxy,
        MenuId::TunMode => TrayAction::ToggleTunMode,
        MenuId::ServiceMode => TrayAction::ToggleServiceMode,
        MenuId::CopyEnv => TrayAction::CopyEnv,
        MenuId::OpenAppDir => TrayAction::OpenDirectory(Directory::App),
        MenuId::OpenCoreDir => TrayAction::OpenDirectory(Directory::Core),
        MenuId::OpenLogsDir => TrayAction::OpenDirectory(Directory::Logs),
        MenuId::RestartClash => TrayAction::RestartCore,
        MenuId::RestartApp => TrayAction::RestartApp,
        MenuId::AppVersion => TrayAction::Nothing,
        MenuId::Quit => TrayAction::Quit,
    }
}

/// The action for a menu event that reports `name`; a name outside the
/// table asks for nothing.
pub open spec fn menu_event_action(name: Seq<char>) -> TrayAction {
    match MenuId::of_name(name) {
        Some(id) => menu_action(id),
        None => TrayAction::Nothing,
    }
}

/// The action for a click on the tray icon, as the user configured it: the
/// action of the menu item that the setting names, or showing the main
/// window for the setting `main_window` and where nothing is set. A setting
/// that names neither asks for nothing.
pub open spec fn click_action(setting: Option<Seq<char>>) -> TrayAction {
    match setting {
        None => TrayAction::ShowMainWindow,
        Some(name) => if name == "main_window"@ {
            TrayAction::ShowMainWindow
        } else {
            menu_event_action(name)
        },
    }
}

impl TrayAction {
    /// The action behind a menu item.
    pub fn for_menu_item(id: MenuId) -> (action: TrayAction)
        ensures
            action == menu_action(id),
    {
        match id {
            MenuId::OpenWindow => TrayAction::ShowMainWindow,
            MenuId::RuleMode => TrayAction::ChangeMode(ProxyMode::Rule),
            MenuId::GlobalMode => TrayAction::ChangeMode(ProxyMode::Global),
            MenuId::DirectMode => TrayAction::ChangeMode(ProxyMode::Direct),
            MenuId::SystemProxy => TrayAction::ToggleSystemProxy,
            MenuId::TunMode => TrayAction::ToggleTunMode,
            MenuId::ServiceMode => TrayAction::ToggleServiceMode,
            MenuId::CopyEnv => TrayAction::CopyEnv,
            MenuId::OpenAppDir => TrayAction::OpenDirectory(Directory::App),
            MenuId::OpenCoreDir => TrayAction::OpenDirectory(Directory::Core),
            MenuId::OpenLogsDir => TrayAction::OpenDirectory(Directory::Logs),
            MenuId::RestartClash => TrayAction::RestartCore,
            MenuId::RestartApp => TrayAction::RestartApp,
            MenuId::AppVersion => TrayAction::Nothing,
            MenuId::Quit => TrayAction::Quit,
        }
    }

    /// The action for a menu event that reports `name`.
    pub fn for_menu_event(name: &str) -> (action: TrayAction)
        ensures
            action == menu_event_action(name@),
    {
        match MenuId::parse(name) {
            Some(id) => TrayAction::for_menu_item(id),
            None => TrayAction::Nothing,
        }
    }

    /// The action that the stored click setting stands for.
    pub fn for_click(setting: &Option<String>) -> (action: TrayAction)
        ensures
            action == click_action(option_text(setting)),
    {
        match setting {
            None => TrayAction::ShowMainWindow,
            Some(name) => {
                if str_eq(name.as_str(), "main_window") {
                    TrayAction::ShowMainWindow
                } else {
                    TrayAction::for_menu_event(name.as_str())
                }
            },
        }
    }

    /// Whether the action changes what the tray reflects, so that a
    /// reconciliation pass must follow it.
    pub open spec fn changes_state(self) -> bool {
        self is ChangeMode || self == TrayAction::ToggleSystemProxy || self
            == TrayAction::ToggleServiceMode || self == TrayAction::ToggleTunMode
    }

    /// Whether a reconciliation pass must follow the action.
    pub fn needs_reconcile(self) -> (yes: bool)
        ensures
            yes == self.changes_state(),
    {
        match self {
            TrayAction::ChangeMode(_)
            | TrayAction::ToggleSystemProxy
            | TrayAction::ToggleServiceMode
            | TrayAction::ToggleTunMode => true,
            _ => false,
        }
    }

    /// Whether the action starts work that takes long and so must run on a
    /// background task, so that the event handler returns at once.
    pub open spec fn long_running(self) -> bool {
        self == TrayAction::RestartCore
    }

    /// Whether the action must be handed to a background task.
    pub fn runs_in_background(self) -> (yes: bool)
        ensures
            yes == self.long_running(),
    {
        match self {
            TrayAction::RestartCore => true,
            _ => false,
        }
    }

    /// Whether carrying the action out ends this process. Every other action
    /// returns to the event loop at once.
    pub open spec fn leaves_process(self) -> bool {
        self == TrayAction::Quit || self == TrayAction::RestartApp
    }

    /// Whether carrying the action out ends this process.
    pub fn ends_process(self) -> (yes: bool)
        ensures
            yes == self.leaves_process(),
    {
        match self {
            TrayAction::Quit | TrayAction::RestartApp => true,
            _ => false,
        }
    }
}

/// A menu event that reports the name of an item asks for that item's
/// action.
pub proof fn lemma_menu_event_of_item(id: MenuId)
    ensures
        menu_event_action(id.name()) == menu_action(id),
{
    crate::menu::lemma_menu_id_round_trip(id);
}

/// A click setting that names a menu item asks for that item's action.
pub proof fn lemma_click_of_item(id: MenuId)
    ensures
        click_action(Some(id.name())) == menu_action(id),
{
    crate::menu::lemma_menu_id_round_trip(id);
    reveal_strlit("main_window");
    reveal_strlit("open_window");
    reveal_strlit("rule_mode");
    reveal_strlit("global_mode");
    reveal_strlit("direct_mode");
    reveal_strlit("system_proxy");
    reveal_strlit("tun_mode");
    reveal_strlit("service_mode");
    reveal_strlit("copy_env");
    reveal_strlit("open_app_dir");
    reveal_strlit("open_core_dir");
    reveal_strlit("open_logs_dir");
    reveal_strlit("restart_clash");
    reveal_strlit("restart_app");
    reveal_strlit("app_version");
    reveal_strlit("quit");
    assert("main_window"@.len() == 11 && "main_window"@[0] == 'm');
    assert(id.name().len() != 11 || id.name()[0] != 'm');
}

/// The three mode items ask for their own mode, and nothing else asks for a
/// change of mode.
pub proof fn lemma_mode_items_change_mode(id: MenuId)
    ensures
        menu_action(id) is ChangeMode <==> (id == MenuId::RuleMode || id == MenuId::GlobalMode
            || id == MenuId::DirectMode),
        menu_action(MenuId::RuleMode) == TrayAction::ChangeMode(ProxyMode::Rule),
        menu_action(MenuId::GlobalMode) == TrayAction::ChangeMode(ProxyMode::Global),
        menu_action(MenuId::DirectMode) == TrayAction::ChangeMode(ProxyMode::Direct),
{
}

/// The menu item that selects a mode.
pub open spec fn mode_item(mode: ProxyMode) -> MenuId {
    match mode {
        ProxyMode::Rule => MenuId::RuleMode,
        ProxyMode::Global => MenuId::GlobalMode,
        ProxyMode::Direct => MenuId::DirectMode,
    }
}

/// The item of a mode asks for that mode, and its identifier is the mode's
/// name followed by `_mode`.
pub proof fn lemma_mode_item_names(mode: ProxyMode)
    ensures
        menu_action(mode_item(mode)) == TrayAction::ChangeMode(mode),
        mode_item(mode).name() == mode.name() + "_mode"@,
{
    reveal_strlit("rule");
    reveal_strlit("global");
    reveal_strlit("direct");
    reveal_strlit("_mode");
    reveal_strlit("rule_mode");
    reveal_strlit("global_mode");
    reveal_strlit("direct_mode");
    assert(mode_item(mode).name() =~= mode.name() + "_mode"@);
}

} // verus!
