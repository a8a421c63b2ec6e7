use clash_verge::config::{IconStyle, Locale};
use clash_verge::event::TrayAction;
use clash_verge::icon::{
    BundledIcons, IconAssets, IconCategory, OverrideFiles, OverrideFlags, OverrideLookup, Platform,
};
use clash_verge::menu::{MenuEntry, MenuId, MenuItem};
use clash_verge::strings::str_eq;
use clash_verge::window::{window_event_for, WindowEvent};

#[test]
fn equal_strings() {
    assert!(str_eq("", ""));
    assert!(str_eq("quit", "quit"));
    assert!(str_eq("Tun 模式", "Tun 模式"));
}

#[test]
fn different_strings() {
    assert!(!str_eq("quit", "quit "));
    assert!(!str_eq("quit", "qui"));
    assert!(!str_eq("quit", "quiT"));
    assert!(!str_eq("", "a"));
    assert!(!str_eq("模式", "模型"));
    assert!(!str_eq("rule_mode", "tun__mode"));
}

#[test]
fn window_events_of_actions() {
    assert_eq!(window_event_for(TrayAction::ShowMainWindow), Some(WindowEvent::ShowRequested));
    assert_eq!(window_event_for(TrayAction::Quit), Some(WindowEvent::QuitRequested));
    assert_eq!(window_event_for(TrayAction::RestartApp), None);
    assert_eq!(window_event_for(TrayAction::ToggleTunMode), None);
    assert_eq!(window_event_for(TrayAction::Nothing), None);
}

#[test]
fn new_items() {
    let quit = MenuItem::new(MenuId::Quit, Locale::Default, "1.0");
    assert_eq!(
        quit,
        MenuItem {
            id: MenuId::Quit,
            label: String::from("Quit"),
            checked: None,
            enabled: true
        }
    );
    let tun = MenuItem::new(MenuId::TunMode, Locale::Zh, "1.0");
    assert_eq!(
        tun,
        MenuItem {
            id: MenuId::TunMode,
            label: String::from("Tun 模式"),
            checked: Some(false),
            enabled: true
        }
    );
    let version = MenuItem::new(MenuId::AppVersion, Locale::Zh, "1.0");
    assert_eq!(
        version,
        MenuItem {
            id: MenuId::AppVersion,
            label: String::from("Version 1.0"),
            checked: None,
            enabled: false
        }
    );
}

#[test]
fn item_and_entry_with_checked() {
    let tun = MenuItem::new(MenuId::TunMode, Locale::Default, "1.0");
    let on = tun.with_checked(MenuId::TunMode, true);
    assert_eq!(on.checked, Some(true));
    assert_eq!(on.label, tun.label);
    assert_eq!(tun.with_checked(MenuId::RuleMode, true), tun);
    let quit = MenuItem::new(MenuId::Quit, Locale::Default, "1.0");
    assert_eq!(quit.with_checked(MenuId::Quit, true), quit);
    let entry = MenuEntry::Item(tun.clone());
    assert_eq!(entry.with_checked(MenuId::TunMode, true), MenuEntry::Item(on));
    assert_eq!(MenuEntry::Separator.with_checked(MenuId::TunMode, true), MenuEntry::Separator);
    assert_eq!(entry.is_checked(MenuId::TunMode), Some(false));
    assert_eq!(entry.is_checked(MenuId::RuleMode), None);
}

#[test]
fn picking_assets_and_files() {
    let icons = BundledIcons {
        monochrome: vec![1],
        colorful: vec![2],
        raster: vec![3],
    };
    let template = Platform { template_icons: true };
    let raster = Platform { template_icons: false };
    assert_eq!(icons.pick(template, IconStyle::Monochrome), &vec![1]);
    assert_eq!(icons.pick(template, IconStyle::Colorful), &vec![2]);
    assert_eq!(icons.pick(raster, IconStyle::Monochrome), &vec![3]);
    assert_eq!(icons.pick(raster, IconStyle::Colorful), &vec![3]);
    let make = |tag: u8| BundledIcons {
        monochrome: vec![tag],
        colorful: vec![tag],
        raster: vec![tag],
    };
    let assets = IconAssets {
        common: make(1),
        sysproxy: make(2),
        tun: make(3),
    };
    assert_eq!(assets.of(IconCategory::Common).raster, vec![1]);
    assert_eq!(assets.of(IconCategory::SysProxy).raster, vec![2]);
    assert_eq!(assets.of(IconCategory::Tun).raster, vec![3]);
    let lookup = OverrideLookup {
        common: OverrideFiles { ico: Some(vec![1]), png: None },
        sysproxy: OverrideFiles { ico: None, png: Some(vec![2]) },
        tun: OverrideFiles::none(),
    };
    assert_eq!(lookup.of(IconCategory::Common).ico, Some(vec![1]));
    assert_eq!(lookup.of(IconCategory::SysProxy).png, Some(vec![2]));
    assert_eq!(lookup.of(IconCategory::Tun), &OverrideFiles::none());
    let flags = OverrideFlags { common: true, sysproxy: false, tun: true };
    assert!(flags.is_enabled(IconCategory::Common));
    assert!(!flags.is_enabled(IconCategory::SysProxy));
    assert!(flags.is_enabled(IconCategory::Tun));
}
