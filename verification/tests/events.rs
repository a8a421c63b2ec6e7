use clash_verge::config::ProxyMode;
use clash_verge::event::{Directory, TrayAction};
use clash_verge::menu::MenuId;
use clash_verge::tray::Tray;

const ALL_IDS: [MenuId; 15] = [
    MenuId::OpenWindow,
    MenuId::RuleMode,
    MenuId::GlobalMode,
    MenuId::DirectMode,
    MenuId::SystemProxy,
    MenuId::TunMode,
    MenuId::ServiceMode,
    MenuId::CopyEnv,
    MenuId::OpenAppDir,
    MenuId::OpenCoreDir,
    MenuId::OpenLogsDir,
    MenuId::RestartClash,
    MenuId::RestartApp,
    MenuId::AppVersion,
    MenuId::Quit,
];

#[test]
fn menu_event_table() {
    let table = [
        ("rule_mode", TrayAction::ChangeMode(ProxyMode::Rule)),
        ("global_mode", TrayAction::ChangeMode(ProxyMode::Global)),
        ("direct_mode", TrayAction::ChangeMode(ProxyMode::Direct)),
        ("open_window", TrayAction::ShowMainWindow),
        ("system_proxy", TrayAction::ToggleSystemProxy),
        ("service_mode", TrayAction::ToggleServiceMode),
        ("tun_mode", TrayAction::ToggleTunMode),
        ("copy_env", TrayAction::CopyEnv),
        ("open_app_dir", TrayAction::OpenDirectory(Directory::App)),
        ("open_core_dir", TrayAction::OpenDirectory(Directory::Core)),
        ("open_logs_dir", TrayAction::OpenDirectory(Directory::Logs)),
        ("restart_clash", TrayAction::RestartCore),
        ("restart_app", TrayAction::RestartApp),
        ("quit", TrayAction::Quit),
    ];
    for (id, action) in table {
        assert_eq!(Tray::on_tray_menu_event(id), action);
    }
}

#[test]
fn unknown_menu_events_ask_for_nothing() {
    for id in ["", "app_version", "Quit", "quit ", "rule", "open_dir", "main_window"] {
        assert_eq!(Tray::on_tray_menu_event(id), TrayAction::Nothing);
    }
}

#[test]
fn identifiers_round_trip() {
    for id in ALL_IDS {
        assert_eq!(MenuId::parse(id.as_str()), Some(id));
        assert_eq!(Tray::on_tray_menu_event(id.as_str()), TrayAction::for_menu_item(id));
    }
    assert_eq!(MenuId::parse("nothing"), None);
    assert_eq!(MenuId::parse("open_windo"), None);
    assert_eq!(MenuId::parse("open_window_"), None);
}

#[test]
fn click_settings() {
    let click = |s: &str| TrayAction::for_click(&Some(String::from(s)));
    assert_eq!(TrayAction::for_click(&None), TrayAction::ShowMainWindow);
    assert_eq!(click("main_window"), TrayAction::ShowMainWindow);
    assert_eq!(click("system_proxy"), TrayAction::ToggleSystemProxy);
    assert_eq!(click("service_mode"), TrayAction::ToggleServiceMode);
    assert_eq!(click("tun_mode"), TrayAction::ToggleTunMode);
    assert_eq!(click("open_window"), TrayAction::ShowMainWindow);
    assert_eq!(click("global_mode"), TrayAction::ChangeMode(ProxyMode::Global));
    assert_eq!(click("copy_env"), TrayAction::CopyEnv);
    assert_eq!(click("app_version"), TrayAction::Nothing);
    assert_eq!(click("Main_window"), TrayAction::Nothing);
    assert_eq!(click(""), TrayAction::Nothing);
}

#[test]
fn click_setting_follows_the_menu_table() {
    for id in ALL_IDS {
        assert_eq!(
            TrayAction::for_click(&Some(String::from(id.as_str()))),
            TrayAction::for_menu_item(id)
        );
    }
}

#[test]
fn actions_that_need_a_reconciliation_pass() {
    assert!(TrayAction::ChangeMode(ProxyMode::Direct).needs_reconcile());
    assert!(TrayAction::ToggleSystemProxy.needs_reconcile());
    assert!(TrayAction::ToggleServiceMode.needs_reconcile());
    assert!(TrayAction::ToggleTunMode.needs_reconcile());
    assert!(!TrayAction::ShowMainWindow.needs_reconcile());
    assert!(!TrayAction::CopyEnv.needs_reconcile());
    assert!(!TrayAction::Nothing.needs_reconcile());
}

#[test]
fn actions_that_end_the_process() {
    assert!(TrayAction::Quit.ends_process());
    assert!(TrayAction::RestartApp.ends_process());
    assert!(!TrayAction::RestartCore.ends_process());
    assert!(!TrayAction::OpenDirectory(Directory::Logs).ends_process());
}

#[test]
fn checkable_identifiers() {
    let checkable: Vec<MenuId> = ALL_IDS.iter().copied().filter(|id| id.is_checkable()).collect();
    assert_eq!(
        checkable,
        vec![
            MenuId::RuleMode,
            MenuId::GlobalMode,
            MenuId::DirectMode,
            MenuId::SystemProxy,
            MenuId::TunMode,
            MenuId::ServiceMode
        ]
    );
}

#[test]
fn only_the_core_restart_runs_in_background() {
    assert!(TrayAction::RestartCore.runs_in_background());
    assert!(!TrayAction::RestartApp.runs_in_background());
    assert!(!TrayAction::Quit.runs_in_background());
    assert!(!TrayAction::ToggleTunMode.runs_in_background());
    assert!(!TrayAction::ChangeMode(ProxyMode::Rule).runs_in_background());
}
