use clash_verge::config::Locale;
use clash_verge::menu::{label_of, MenuEntry, MenuId, MenuItem, SubmenuId, TrayMenuModel};
use clash_verge::tray::Tray;

fn item(entry: &MenuEntry) -> &MenuItem {
    match entry {
        MenuEntry::Item(item) => item,
        _ => panic!("not an item"),
    }
}

fn submenu(entry: &MenuEntry) -> (&String, &Vec<MenuItem>) {
    match entry {
        MenuEntry::Submenu { label, items } => (label, items),
        _ => panic!("not a submenu"),
    }
}

#[test]
fn skeleton_in_default_locale() {
    let menu = Tray::tray_menu(Locale::Default, "1.7.5");
    let e = &menu.entries;
    assert_eq!(e.len(), 16);
    let top = [
        (0, MenuId::OpenWindow, "Dashboard", None),
        (2, MenuId::RuleMode, "rule_mode", Some(false)),
        (3, MenuId::GlobalMode, "global_mode", Some(false)),
        (4, MenuId::DirectMode, "direct_mode", Some(false)),
        (6, MenuId::SystemProxy, "system_proxy", Some(false)),
        (7, MenuId::TunMode, "tun_mode", Some(false)),
        (9, MenuId::ServiceMode, "service_mode", Some(false)),
        (11, MenuId::CopyEnv, "copy_env", None),
        (15, MenuId::Quit, "Quit", None),
    ];
    for (at, id, label, checked) in top {
        let it = item(&e[at]);
        assert_eq!(it.id, id);
        assert_eq!(it.label, label);
        assert_eq!(it.checked, checked);
        assert!(it.enabled);
    }
    for at in [1, 5, 8, 10, 14] {
        assert_eq!(e[at], MenuEntry::Separator);
    }
    let (label, items) = submenu(&e[12]);
    assert_eq!(label, "open_dir");
    let ids: Vec<MenuId> = items.iter().map(|i| i.id).collect();
    assert_eq!(ids, vec![MenuId::OpenAppDir, MenuId::OpenCoreDir, MenuId::OpenLogsDir]);
    let labels: Vec<&str> = items.iter().map(|i| i.label.as_str()).collect();
    assert_eq!(labels, vec!["open_app_dir", "open_core_dir", "open_logs_dir"]);
    let (label, items) = submenu(&e[13]);
    assert_eq!(label, "More");
    let ids: Vec<MenuId> = items.iter().map(|i| i.id).collect();
    assert_eq!(ids, vec![MenuId::RestartClash, MenuId::RestartApp, MenuId::AppVersion]);
    let labels: Vec<&str> = items.iter().map(|i| i.label.as_str()).collect();
    assert_eq!(labels, vec!["Restart Clash", "Restart App", "Version 1.7.5"]);
    assert!(items[0].enabled && items[1].enabled);
    assert!(!items[2].enabled);
    assert_eq!(items[2].checked, None);
}

#[test]
fn skeleton_in_chinese() {
    let menu = TrayMenuModel::build(Locale::Zh, "2.0.0");
    let e = &menu.entries;
    assert_eq!(e.len(), 16);
    assert_eq!(item(&e[0]).label, "打开面板");
    assert_eq!(item(&e[2]).label, "规则模式");
    assert_eq!(item(&e[3]).label, "全局模式");
    assert_eq!(item(&e[4]).label, "直连模式");
    assert_eq!(item(&e[6]).label, "系统代理");
    assert_eq!(item(&e[7]).label, "Tun 模式");
    assert_eq!(item(&e[9]).label, "服务模式");
    assert_eq!(item(&e[11]).label, "复制环境变量");
    assert_eq!(item(&e[15]).label, "退出");
    let (label, items) = submenu(&e[12]);
    assert_eq!(label, "打开目录");
    let labels: Vec<&str> = items.iter().map(|i| i.label.as_str()).collect();
    assert_eq!(labels, vec!["应用目录", "内核目录", "日志目录"]);
    let (label, items) = submenu(&e[13]);
    assert_eq!(label, "更多");
    let labels: Vec<&str> = items.iter().map(|i| i.label.as_str()).collect();
    assert_eq!(labels, vec!["重启 Clash", "重启应用", "Version 2.0.0"]);
}

#[test]
fn building_is_deterministic() {
    assert_eq!(
        TrayMenuModel::build(Locale::Default, "1.0.0"),
        TrayMenuModel::build(Locale::Default, "1.0.0")
    );
    assert_ne!(
        TrayMenuModel::build(Locale::Default, "1.0.0"),
        TrayMenuModel::build(Locale::Zh, "1.0.0")
    );
    assert_ne!(
        TrayMenuModel::build(Locale::Default, "1.0.0"),
        TrayMenuModel::build(Locale::Default, "1.0.1")
    );
}

#[test]
fn labels() {
    assert_eq!(label_of(MenuId::OpenWindow, Locale::Default, "1"), "Dashboard");
    assert_eq!(label_of(MenuId::AppVersion, Locale::Zh, ""), "Version ");
    assert_eq!(label_of(MenuId::AppVersion, Locale::Default, "0.9"), "Version 0.9");
    assert_eq!(SubmenuId::More.label_text(Locale::Zh), "更多");
    assert_eq!(SubmenuId::OpenDir.label_text(Locale::Default), "open_dir");
    assert_eq!(Locale::Zh.text("a", "b"), "b");
    assert_eq!(Locale::Default.text("a", "b"), "a");
}

#[test]
fn set_checked_changes_only_the_named_item() {
    let before = TrayMenuModel::build(Locale::Default, "1.0.0");
    let mut menu = before.clone();
    menu.set_checked(MenuId::TunMode, true);
    assert_eq!(menu.is_checked(MenuId::TunMode), Some(true));
    assert_eq!(menu.is_checked(MenuId::SystemProxy), Some(false));
    assert_eq!(menu.entries.len(), before.entries.len());
    for (at, (a, b)) in menu.entries.iter().zip(before.entries.iter()).enumerate() {
        if at == 7 {
            assert_eq!(item(a).checked, Some(true));
            assert_eq!(item(a).label, item(b).label);
        } else {
            assert_eq!(a, b);
        }
    }
    menu.set_checked(MenuId::TunMode, false);
    assert_eq!(menu, before);
}

#[test]
fn set_checked_leaves_plain_actions_alone() {
    let before = TrayMenuModel::build(Locale::Default, "1.0.0");
    let mut menu = before.clone();
    menu.set_checked(MenuId::Quit, true);
    menu.set_checked(MenuId::AppVersion, true);
    menu.set_checked(MenuId::OpenLogsDir, true);
    assert_eq!(menu, before);
    assert_eq!(menu.is_checked(MenuId::Quit), None);
    assert_eq!(menu.is_checked(MenuId::OpenLogsDir), None);
}

#[test]
fn check_marks_inside_submenus() {
    let mut menu = TrayMenuModel {
        entries: vec![
            MenuEntry::Separator,
            MenuEntry::Submenu {
                label: String::from("group"),
                items: vec![
                    MenuItem {
                        id: MenuId::CopyEnv,
                        label: String::from("plain"),
                        checked: None,
                        enabled: true,
                    },
                    MenuItem {
                        id: MenuId::TunMode,
                        label: String::from("inner"),
                        checked: Some(false),
                        enabled: true,
                    },
                ],
            },
            MenuEntry::Item(MenuItem {
                id: MenuId::TunMode,
                label: String::from("outer"),
                checked: Some(false),
                enabled: true,
            }),
        ],
    };
    assert_eq!(menu.is_checked(MenuId::TunMode), Some(false));
    assert_eq!(menu.is_checked(MenuId::CopyEnv), None);
    menu.set_checked(MenuId::TunMode, true);
    assert_eq!(menu.is_checked(MenuId::TunMode), Some(true));
    assert_eq!(menu.entries[1].is_checked(MenuId::TunMode), Some(true));
    assert_eq!(menu.entries[2].is_checked(MenuId::TunMode), Some(true));
    assert_eq!(menu.entries[0].is_checked(MenuId::TunMode), None);
    let empty = TrayMenuModel { entries: vec![] };
    assert_eq!(empty.is_checked(MenuId::TunMode), None);
}
