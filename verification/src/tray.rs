//! The tray as a whole: what it shows for a configuration snapshot, and what
//! its events ask for.

use crate::config::{flag_or_off, option_text, IconStyle, Locale, ProxyMode};
use crate::event::{click_action, menu_event_action, TrayAction};
use crate::icon::{
    resolve_icon, resolved_icon, IconAssets, IconAssetsView, OverrideFlags, OverrideLookup,
    OverrideLookupView, Platform,
};
use crate::menu::{
    checked_state, lemma_model_shows_checks, lemma_set_checked_in_model, menu_model, CheckStates,
    MenuEntryView, MenuId, TrayMenuModel,
};
use crate::tooltip::{compose_tooltip, tooltip_text};
use vstd::prelude::*;

verus! {

/// The settings as they are stored: most are optional and have a default.
#[derive(Clone, Debug, PartialEq, Eq)]
pub struct Settings {
    pub language: Option<String>,
    pub mode: Option<String>,
    pub enable_system_proxy: Option<bool>,
    pub enable_tun: bool,
    pub enable_service_mode: Option<bool>,
    pub tray_icon: Option<String>,
    pub common_tray_icon: Option<bool>,
    pub sysproxy_tray_icon: Option<bool>,
    pub tun_tray_icon: Option<bool>,
    pub tray_event: Option<String>,
    pub version: String,
    /// The display name of the current profile, where one is current and
    /// has a name.
    pub current_profile: Option<String>,
}

pub struct SettingsView {
    pub language: Option<Seq<char>>,
    pub mode: Option<Seq<char>>,
    pub enable_system_proxy: Option<bool>,
    pub enable_tun: bool,
    pub enable_service_mode: Option<bool>,
    pub tray_icon: Option<Seq<char>>,
    pub common_tray_icon: Option<bool>,
    pub sysproxy_tray_icon: Option<bool>,
    pub tun_tray_icon: Option<bool>,
    pub tray_event: Option<Seq<char>>,
    pub version: Seq<char>,
    pub current_profile: Option<Seq<char>>,
}

impl View for Settings {
    type V = SettingsView;

    open spec fn view(&self) -> SettingsView {
        SettingsView {
            language: option_text(&self.language),
            mode: option_text(&self.mode),
            enable_system_proxy: self.enable_system_proxy,
            enable_tun: self.enable_tun,
            enable_service_mode: self.enable_service_mode,
            tray_icon: option_text(&self.tray_icon),
            common_tray_icon: self.common_tray_icon,
            sysproxy_tray_icon: self.sysproxy_tray_icon,
            tun_tray_icon: self.tun_tray_icon,
            tray_event: option_text(&self.tray_event),
            version: self.version@,
            current_profile: option_text(&self.current_profile),
        }
    }
}

/// Everything that the tray reflects, with the defaults applied.
#[derive(Clone, Debug, PartialEq, Eq)]
pub struct Snapshot {
    pub locale: Locale,
    pub mode: ProxyMode,
    pub system_proxy: bool,
    pub tun_mode: bool,
    pub service_mode: bool,
    pub icon_style: IconStyle,
    pub overrides: OverrideFlags,
    /// What a click on the tray icon asks for.
    pub click_action: TrayAction,
    pub version: String,
    pub profile: Option<String>,
}

pub struct SnapshotView {
    pub locale: Locale,
    pub mode: ProxyMode,
    pub system_proxy: bool,
    pub tun_mode: bool,
    pub service_mode: bool,
    pub icon_style: IconStyle,
    pub overrides: OverrideFlags,
    pub click_action: TrayAction,
    pub version: Seq<char>,
    pub profile: Option<Seq<char>>,
}

impl View for Snapshot {
    type V = SnapshotView;

    open spec fn view(&self) -> SnapshotView {
        SnapshotView {
            locale: self.locale,
            mode: self.mode,
            system_proxy: self.system_proxy,
            tun_mode: self.tun_mode,
            service_mode: self.service_mode,
            icon_style: self.icon_style,
            overrides: self.overrides,
            click_action: self.click_action,
            version: self.version@,
            profile: option_text(&self.profile),
        }
    }
}

impl SettingsView {
    /// The snapshot that stored settings stand for: an absent switch is off,
    /// an absent or unknown mode is `Rule`, an absent or unknown icon style
    /// is `Monochrome`, any language but `zh` is the default one, and a
    /// click without a setting shows the main window.
    pub open spec fn snapshot(self) -> SnapshotView {
        SnapshotView {
            locale: Locale::of_setting(self.language),
            mode: ProxyMode::of_setting(self.mode),
            system_proxy: self.enable_system_proxy == Some(true),
            tun_mode: self.enable_tun,
            service_mode: self.enable_service_mode == Some(true),
            icon_style: IconStyle::of_setting(self.tray_icon),
            overrides: OverrideFlags {
                common: self.common_tray_icon == Some(true),
                sysproxy: self.sysproxy_tray_icon == Some(true),
                tun: self.tun_tray_icon == Some(true),
            },
            click_action: click_action(self.tray_event),
            version: self.version,
            profile: self.current_profile,
        }
    }
}

impl Snapshot {
    /// Reads stored settings into a snapshot.
    pub fn from_settings(settings: &Settings) -> (snapshot: Snapshot)
        ensures
            snapshot@ == settings@.snapshot(),
    {
        let profile = match &settings.current_profile {
            Some(name) => Some(name.clone()),
            None => None,
        };
        Snapshot {
            locale: Locale::from_setting(&settings.language),
            mode: ProxyMode::from_setting(&settings.mode),
            system_proxy: flag_or_off(settings.enable_system_proxy),
            tun_mode: settings.enable_tun,
            service_mode: flag_or_off(settings.enable_service_mode),
            icon_style: IconStyle::from_setting(&settings.tray_icon),
            overrides: OverrideFlags {
                common: flag_or_off(settings.common_tray_icon),
                sysproxy: flag_or_off(settings.sysproxy_tray_icon),
                tun: flag_or_off(settings.tun_tray_icon),
            },
            click_action: TrayAction::for_click(&settings.tray_event),
            version: settings.version.clone(),
            profile,
        }
    }
}

impl SnapshotView {
    /// The check marks of the menu: the active mode alone among the three
    /// modes, and each switch as it stands.
    pub open spec fn checks(self) -> CheckStates {
        CheckStates {
            rule: self.mode == ProxyMode::Rule,
            global: self.mode == ProxyMode::Global,
            direct: self.mode == ProxyMode::Direct,
            system_proxy: self.system_proxy,
            tun_mode: self.tun_mode,
            service_mode: self.service_mode,
        }
    }
}

/// What the tray shows after a reconciliation pass. It is built anew on
/// every pass and handed over whole.
#[derive(Clone, Debug, PartialEq, Eq)]
pub struct TrayState {
    pub menu: TrayMenuModel,
    pub icon: Vec<u8>,
    /// Whether the tray tints the icon itself.
    pub icon_as_template: bool,
    pub tooltip: String,
}

pub struct TrayStateView {
    pub menu: Seq<MenuEntryView>,
    pub icon: Seq<u8>,
    pub icon_as_template: bool,
    pub tooltip: Seq<char>,
}

impl View for TrayState {
    type V = TrayStateView;

    open spec fn view(&self) -> TrayStateView {
        TrayStateView {
            menu: self.menu@,
            icon: self.icon@,
            icon_as_template: self.icon_as_template,
            tooltip: self.tooltip@,
        }
    }
}

/// The tray for a snapshot: the full menu with the snapshot's check marks,
/// the resolved icon, and the tooltip.
pub open spec fn reconciled(
    snapshot: SnapshotView,
    platform: Platform,
    assets: IconAssetsView,
    lookup: OverrideLookupView,
) -> TrayStateView {
    TrayStateView {
        menu: menu_model(snapshot.locale, snapshot.version, snapshot.checks()),
        icon: resolved_icon(
            snapshot.system_proxy,
            snapshot.tun_mode,
            snapshot.icon_style,
            snapshot.overrides,
            platform,
            assets,
            lookup,
        ),
        icon_as_template: platform.template_icons && snapshot.icon_style == IconStyle::Monochrome,
        tooltip: tooltip_text(
            snapshot.locale,
            snapshot.version,
            snapshot.system_proxy,
            snapshot.tun_mode,
            snapshot.profile,
        ),
    }
}

/// An event of the tray icon itself.
#[derive(Clone, Copy, Debug, PartialEq, Eq, Structural)]
pub enum TrayIconEvent {
    Click,
    DoubleClick,
    Enter,
    Move,
    Leave,
}

/// What is needed to install the tray at start.
#[derive(Clone, Debug, PartialEq, Eq)]
pub struct TraySetup {
    /// The identifier under which the tray is registered and found again.
    pub id: &'static str,
    pub menu: TrayMenuModel,
}

/// The tray controller.
pub struct Tray {}

impl Tray {
    /// The identifier of the one tray of the application.
    pub open spec fn id() -> Seq<char> {
        "verge-tray"@
    }

    /// The identifier under which the tray is registered and found again.
    pub fn tray_id() -> (id: &'static str)
        ensures
            id@ == Tray::id(),
    {
        "verge-tray"
    }

    /// The menu skeleton: every entry in place, nothing checked.
    pub fn tray_menu(locale: Locale, version: &str) -> (menu: TrayMenuModel)
        ensures
            menu@ == menu_model(locale, version@, CheckStates::none()),
    {
        TrayMenuModel::build(locale, version)
    }

    /// The tray as it is first installed: registered under its identifier,
    /// with the menu skeleton.
    pub fn create_tray(locale: Locale, version: &str) -> (setup: TraySetup)
        ensures
            setup.id@ == Tray::id(),
            setup.menu@ == menu_model(locale, version@, CheckStates::none()),
    {
        TraySetup { id: Tray::tray_id(), menu: Tray::tray_menu(locale, version) }
    }

    /// Brings the whole tray in line with the snapshot.
    pub fn update_systray(
        snapshot: &Snapshot,
        platform: Platform,
        assets: &IconAssets,
        lookup: &OverrideLookup,
    ) -> (state: TrayState)
        ensures
            state@ == reconciled(snapshot@, platform, assets@, lookup@),
    {
        Tray::update_part(snapshot, platform, assets, lookup)
    }

    /// Computes menu, icon and tooltip for the snapshot. Always succeeds.
    pub fn update_part(
        snapshot: &Snapshot,
        platform: Platform,
        assets: &IconAssets,
        lookup: &OverrideLookup,
    ) -> (state: TrayState)
        ensures
            state@ == reconciled(snapshot@, platform, assets@, lookup@),
    {
        let locale = snapshot.locale;
        let version = snapshot.version.as_str();
        let mut menu = Tray::tray_menu(locale, version);
        let ghost c0 = CheckStates::none();

        let rule = snapshot.mode == ProxyMode::Rule;
        menu.set_checked(MenuId::RuleMode, rule);
        let ghost c1 = c0.with(MenuId::RuleMode, rule);
        proof {
            lemma_set_checked_in_model(locale, version@, c0, MenuId::RuleMode, rule);
        }
        let global = snapshot.mode == ProxyMode::Global;
        menu.set_checked(MenuId::GlobalMode, global);
        let ghost c2 = c1.with(MenuId::GlobalMode, global);
        proof {
            lemma_set_checked_in_model(locale, version@, c1, MenuId::GlobalMode, global);
        }
        let direct = snapshot.mode == ProxyMode::Direct;
        menu.set_checked(MenuId::DirectMode, direct);
        let ghost c3 = c2.with(MenuId::DirectMode, direct);
        proof {
            lemma_set_checked_in_model(locale, version@, c2, MenuId::DirectMode, direct);
        }

        let icon = resolve_icon(
            snapshot.system_proxy,
            snapshot.tun_mode,
            snapshot.icon_style,
            snapshot.overrides,
            platform,
            assets,
            lookup,
        );
        let icon_as_template = platform.template_icons && snapshot.icon_style.as_template();

        menu.set_checked(MenuId::SystemProxy, snapshot.system_proxy);
        let ghost c4 = c3.with(MenuId::SystemProxy, snapshot.system_proxy);
        proof {
            lemma_set_checked_in_model(
                locale,
                version@,
                c3,
                MenuId::SystemProxy,
                snapshot.system_proxy,
            );
        }
        menu.set_checked(MenuId::TunMode, snapshot.tun_mode);
        let ghost c5 = c4.with(MenuId::TunMode, snapshot.tun_mode);
        proof {
            lemma_set_checked_in_model(locale, version@, c4, MenuId::TunMode, snapshot.tun_mode);
        }
        menu.set_checked(MenuId::ServiceMode, snapshot.service_mode);
        proof {
            lemma_set_checked_in_model(
                locale,
                version@,
                c5,
                MenuId::ServiceMode,
                snapshot.service_mode,
            );
            assert(c5.with(MenuId::ServiceMode, snapshot.service_mode) == snapshot@.checks());
        }

        let tooltip = compose_tooltip(
            locale,
            version,
            snapshot.system_proxy,
            snapshot.tun_mode,
            &snapshot.profile,
        );
        TrayState { menu, icon, icon_as_template, tooltip }
    }

    /// The action for a click on the tray icon.
    pub fn on_click(snapshot: &Snapshot) -> (action: TrayAction)
        ensures
            action == snapshot@.click_action,
    {
        snapshot.click_action
    }

    /// The action for an event of the tray icon: a click asks for the
    /// configured action, every other event for nothing.
    pub fn on_tray_icon_event(event: TrayIconEvent, snapshot: &Snapshot) -> (action: TrayAction)
        ensures
            action == if event == TrayIconEvent::Click {
                snapshot@.click_action
            } else {
                TrayAction::Nothing
            },
    {
        match event {
            TrayIconEvent::Click => Tray::on_click(snapshot),
            _ => TrayAction::Nothing,
        }
    }

    /// The action for the menu item that reported `id`.
    pub fn on_tray_menu_event(id: &str) -> (action: TrayAction)
        ensures
            action == menu_event_action(id@),
    {
        TrayAction::for_menu_event(id)
    }
}

/// After reconciliation the menu shows a check mark on the item of the
/// snapshot's mode and on neither of the other two mode items, so exactly
/// one of the three is checked.
pub proof fn lemma_exactly_one_mode_checked(
    snapshot: SnapshotView,
    platform: Platform,
    assets: IconAssetsView,
    lookup: OverrideLookupView,
)
    ensures
        ({
            let menu = reconciled(snapshot, platform, assets, lookup).menu;
            let rule = checked_state(menu, MenuId::RuleMode);
            let global = checked_state(menu, MenuId::GlobalMode);
            let direct = checked_state(menu, MenuId::DirectMode);
            &&& rule == Some(snapshot.mode == ProxyMode::Rule)
            &&& global == Some(snapshot.mode == ProxyMode::Global)
            &&& direct == Some(snapshot.mode == ProxyMode::Direct)
            &&& (rule == Some(true) && global == Some(false) && direct == Some(false))
                || (rule == Some(false) && global == Some(true) && direct == Some(false))
                || (rule == Some(false) && global == Some(false) && direct == Some(true))
        }),
{
    let checks = snapshot.checks();
    lemma_model_shows_checks(snapshot.locale, snapshot.version, checks, MenuId::RuleMode);
    lemma_model_shows_checks(snapshot.locale, snapshot.version, checks, MenuId::GlobalMode);
    lemma_model_shows_checks(snapshot.locale, snapshot.version, checks, MenuId::DirectMode);
}

/// After reconciliation the three switches show their own state, each
/// independently of the others.
pub proof fn lemma_switches_show_their_state(
    snapshot: SnapshotView,
    platform: Platform,
    assets: IconAssetsView,
    lookup: OverrideLookupView,
)
    ensures
        ({
            let menu = reconciled(snapshot, platform, assets, lookup).menu;
            &&& checked_state(menu, MenuId::SystemProxy) == Some(snapshot.system_proxy)
            &&& checked_state(menu, MenuId::TunMode) == Some(snapshot.tun_mode)
            &&& checked_state(menu, MenuId::ServiceMode) == Some(snapshot.service_mode)
        }),
{
    let checks = snapshot.checks();
    lemma_model_shows_checks(snapshot.locale, snapshot.version, checks, MenuId::SystemProxy);
    lemma_model_shows_checks(snapshot.locale, snapshot.version, checks, MenuId::TunMode);
    lemma_model_shows_checks(snapshot.locale, snapshot.version, checks, MenuId::ServiceMode);
}

/// Reconciling again with nothing changed gives the same menu, icon and
/// tooltip: the result depends on the content of the inputs alone.
pub proof fn lemma_reconcile_is_idempotent(
    first: Snapshot,
    second: Snapshot,
    platform: Platform,
    first_assets: IconAssets,
    second_assets: IconAssets,
    first_lookup: OverrideLookup,
    second_lookup: OverrideLookup,
)
    requires
        first@ == second@,
        first_assets@ == second_assets@,
        first_lookup@ == second_lookup@,
    ensures
        reconciled(first@, platform, first_assets@, first_lookup@) == reconciled(
            second@,
            platform,
            second_assets@,
            second_lookup@,
        ),
{
}

} // verus!
