//! The tray menu as a plain value: identifiers, labels and the entry tree.

use crate::config::Locale;
use crate::strings::str_eq;
use vstd::prelude::*;
use vstd::string::StringExecFns;

verus! {

/// The stable identifier of a menu item. The set is closed.
#[derive(Clone, Copy, Debug, PartialEq, Eq, Structural)]
pub enum MenuId {
    OpenWindow,
    RuleMode,
    GlobalMode,
    DirectMode,
    SystemProxy,
    TunMode,
    ServiceMode,
    CopyEnv,
    OpenAppDir,
    OpenCoreDir,
    OpenLogsDir,
    RestartClash,
    RestartApp,
    AppVersion,
    Quit,
}

impl MenuId {
    /// The identifier as the windowing system reports it in events.
    pub open spec fn name(self) -> Seq<char> {
        match self {
            MenuId::OpenWindow => "open_window"@,
            MenuId::RuleMode => "rule_mode"@,
            MenuId::GlobalMode => "global_mode"@,
            MenuId::DirectMode => "direct_mode"@,
            MenuId::SystemProxy => "system_proxy"@,
            MenuId::TunMode => "tun_mode"@,
            MenuId::ServiceMode => "service_mode"@,
            MenuId::CopyEnv => "copy_env"@,
            MenuId::OpenAppDir => "open_app_dir"@,
            MenuId::OpenCoreDir => "open_core_dir"@,
            MenuId::OpenLogsDir => "open_logs_dir"@,
            MenuId::RestartClash => "restart_clash"@,
            MenuId::RestartApp => "restart_app"@,
            MenuId::AppVersion => "app_version"@,
            MenuId::Quit => "quit"@,
        }
    }

    /// The identifier that a reported name stands for, if any.
    pub open spec fn of_name(name: Seq<char>) -> Option<MenuId> {
        if name == "open_window"@ {
            Some(MenuId::OpenWindow)
        } else if name == "rule_mode"@ {
            Some(MenuId::RuleMode)
        } else if name == "global_mode"@ {
            Some(MenuId::GlobalMode)
        } else if name == "direct_mode"@ {
            Some(MenuId::DirectMode)
        } else if name == "system_proxy"@ {
            Some(MenuId::SystemProxy)
        } else if name == "tun_mode"@ {
            Some(MenuId::TunMode)
        } else if name == "service_mode"@ {
            Some(MenuId::ServiceMode)
        } else if name == "copy_env"@ {
            Some(MenuId::CopyEnv)
        } else if name == "open_app_dir"@ {
            Some(MenuId::OpenAppDir)
        } else if name == "open_core_dir"@ {
            Some(MenuId::OpenCoreDir)
        } else if name == "open_logs_dir"@ {
            Some(MenuId::OpenLogsDir)
        } else if name == "restart_clash"@ {
            Some(MenuId::RestartClash)
        } else if name == "restart_app"@ {
            Some(MenuId::RestartApp)
        } else if name == "app_version"@ {
            Some(MenuId::AppVersion)
        } else if name == "quit"@ {
            Some(MenuId::Quit)
        } else {
            None
        }
    }

    /// The identifier as events report it.
    pub fn as_str(self) -> (name: &'static str)
        ensures
            name@ == self.name(),
    {
        match self {
            MenuId::OpenWindow => "open_window",
            MenuId::RuleMode => "rule_mode",
            MenuId::GlobalMode => "global_mode",
            MenuId::DirectMode => "direct_mode",
            MenuId::SystemProxy => "system_proxy",
            MenuId::TunMode => "tun_mode",
            MenuId::ServiceMode => "service_mode",
            MenuId::CopyEnv => "copy_env",
            MenuId::OpenAppDir => "open_app_dir",
            MenuId::OpenCoreDir => "open_core_dir",
            MenuId::OpenLogsDir => "open_logs_dir",
            MenuId::RestartClash => "restart_clash",
            MenuId::RestartApp => "restart_app",
            MenuId::AppVersion => "app_version",
            MenuId::Quit => "quit",
        }
    }

    /// Reads a reported name; `None` for a name outside the table.
    pub fn parse(name: &str) -> (id: Option<MenuId>)
        ensures
            id == MenuId::of_name(name@),
    {
        if str_eq(name, "open_window") {
            Some(MenuId::OpenWindow)
        } else if str_eq(name, "rule_mode") {
            Some(MenuId::RuleMode)
        } else if str_eq(name, "global_mode") {
            Some(MenuId::GlobalMode)
        } else if str_eq(name, "direct_mode") {
            Some(MenuId::DirectMode)
        } else if str_eq(name, "system_proxy") {
            Some(MenuId::SystemProxy)
        } else if str_eq(name, "tun_mode") {
            Some(MenuId::TunMode)
        } else if str_eq(name, "service_mode") {
            Some(MenuId::ServiceMode)
        } else if str_eq(name, "copy_env") {
            Some(MenuId::CopyEnv)
        } else if str_eq(name, "open_app_dir") {
            Some(MenuId::OpenAppDir)
        } else if str_eq(name, "open_core_dir") {
            Some(MenuId::OpenCoreDir)
        } else if str_eq(name, "open_logs_dir") {
            Some(MenuId::OpenLogsDir)
        } else if str_eq(name, "restart_clash") {
            Some(MenuId::RestartClash)
        } else if str_eq(name, "restart_app") {
            Some(MenuId::RestartApp)
        } else if str_eq(name, "app_version") {
            Some(MenuId::AppVersion)
        } else if str_eq(name, "quit") {
            Some(MenuId::Quit)
        } else {
            None
        }
    }

    /// Whether items with this identifier carry a check mark.
    pub open spec fn checkable(self) -> bool {
        self == MenuId::RuleMode || self == MenuId::GlobalMode || self == MenuId::DirectMode
            || self == MenuId::SystemProxy || self == MenuId::TunMode || self
            == MenuId::ServiceMode
    }

    /// Whether items with this identifier carry a check mark.
    pub fn is_checkable(self) -> (yes: bool)
        ensures
            yes == self.checkable(),
    {
        match self {
            MenuId::RuleMode
            | MenuId::GlobalMode
            | MenuId::DirectMode
            | MenuId::SystemProxy
            | MenuId::TunMode
            | MenuId::ServiceMode => true,
            _ => false,
        }
    }
}

/// Every identifier is read back from its own name.
pub proof fn lemma_menu_id_round_trip(id: MenuId)
    ensures
        MenuId::of_name(id.name()) == Some(id),
{
    reveal_strlit("open_window");
    reveal_strlit("rule_mode");
    reveal_strlit("global_mode");
    reveal_strlit("direct_mode");
    reveal_strlit("system_proxy");
    reveal_strlit("tun_mode");
    reveal_strlit("service_mode");
    reveal_strlit("copy_env");
    reveal_strlit("open_app_dir");
    reveal_strlit("open_core_dir");
    reveal_strlit("open_logs_dir");
    reveal_strlit("restart_clash");
    reveal_strlit("restart_app");
    reveal_strlit("app_version");
    reveal_strlit("quit");
    // Two names differ in length, in their first character, or at the one
    // later position named here.
    assert("open_window"@.len() == 11 && "open_window"@[0] == 'o');
    assert("rule_mode"@.len() == 9 && "rule_mode"@[0] == 'r');
    assert("global_mode"@.len() == 11 && "global_mode"@[0] == 'g');
    assert("direct_mode"@.len() == 11 && "direct_mode"@[0] == 'd');
    assert("system_proxy"@.len() == 12 && "system_proxy"@[0] == 's');
    assert("tun_mode"@.len() == 8 && "tun_mode"@[0] == 't');
    assert("service_mode"@.len() == 12 && "service_mode"@[0] == 's');
    assert("copy_env"@.len() == 8 && "copy_env"@[0] == 'c');
    assert("open_app_dir"@.len() == 12 && "open_app_dir"@[0] == 'o');
    assert("open_core_dir"@.len() == 13 && "open_core_dir"@[0] == 'o');
    assert("open_logs_dir"@.len() == 13 && "open_logs_dir"@[0] == 'o');
    assert("restart_clash"@.len() == 13 && "restart_clash"@[0] == 'r');
    assert("restart_app"@.len() == 11 && "restart_app"@[0] == 'r');
    assert("app_version"@.len() == 11 && "app_version"@[0] == 'a');
    assert("quit"@.len() == 4 && "quit"@[0] == 'q');
    assert("system_proxy"@[1] == 'y');
    assert("service_mode"@[1] == 'e');
    assert("open_core_dir"@[5] == 'c');
    assert("open_logs_dir"@[5] == 'l');
}

/// The two groups of items that sit one level down.
#[derive(Clone, Copy, Debug, PartialEq, Eq, Structural)]
pub enum SubmenuId {
    OpenDir,
    More,
}

impl SubmenuId {
    pub open spec fn label(self, locale: Locale) -> Seq<char> {
        match self {
            SubmenuId::OpenDir => locale.pick("open_dir"@, "打开目录"@),
            SubmenuId::More => locale.pick("More"@, "更多"@),
        }
    }

    /// The submenu's label.
    pub fn label_text(self, locale: Locale) -> (text: &'static str)
        ensures
            text@ == self.label(locale),
    {
        match self {
            SubmenuId::OpenDir => locale.text("open_dir", "打开目录"),
            SubmenuId::More => locale.text("More", "更多"),
        }
    }
}

/// The label of an item. All labels come from a two-language table, but for
/// the version entry, which shows `version` in either language.
pub open spec fn item_label(id: MenuId, locale: Locale, version: Seq<char>) -> Seq<char> {
    match id {
        MenuId::OpenWindow => locale.pick("Dashboard"@, "打开面板"@),
        MenuId::RuleMode => locale.pick("rule_mode"@, "规则模式"@),
        MenuId::GlobalMode => locale.pick("global_mode"@, "全局模式"@),
        MenuId::DirectMode => locale.pick("direct_mode"@, "直连模式"@),
        MenuId::SystemProxy => locale.pick("system_proxy"@, "系统代理"@),
        MenuId::TunMode => locale.pick("tun_mode"@, "Tun 模式"@),
        MenuId::ServiceMode => locale.pick("service_mode"@, "服务模式"@),
        MenuId::CopyEnv => locale.pick("copy_env"@, "复制环境变量"@),
        MenuId::OpenAppDir => locale.pick("open_app_dir"@, "应用目录"@),
        MenuId::OpenCoreDir => locale.pick("open_core_dir"@, "内核目录"@),
        MenuId::OpenLogsDir => locale.pick("open_logs_dir"@, "日志目录"@),
        MenuId::RestartClash => locale.pick("Restart Clash"@, "重启 Clash"@),
        MenuId::RestartApp => locale.pick("Restart App"@, "重启应用"@),
        MenuId::AppVersion => "Version "@ + version,
        MenuId::Quit => locale.pick("Quit"@, "退出"@),
    }
}

/// The label of an item.
pub fn label_of(id: MenuId, locale: Locale, version: &str) -> (label: String)
    ensures
        label@ == item_label(id, locale, version@),
{
    let text: &'static str = match id {
        MenuId::OpenWindow => locale.text("Dashboard", "打开面板"),
        MenuId::RuleMode => locale.text("rule_mode", "规则模式"),
        MenuId::GlobalMode => locale.text("global_mode", "全局模式"),
        MenuId::DirectMode => locale.text("direct_mode", "直连模式"),
        MenuId::SystemProxy => locale.text("system_proxy", "系统代理"),
        MenuId::TunMode => locale.text("tun_mode", "Tun 模式"),
        MenuId::ServiceMode => locale.text("service_mode", "服务模式"),
        MenuId::CopyEnv => locale.text("copy_env", "复制环境变量"),
        MenuId::OpenAppDir => locale.text("open_app_dir", "应用目录"),
        MenuId::OpenCoreDir => locale.text("open_core_dir", "内核目录"),
        MenuId::OpenLogsDir => locale.text("open_logs_dir", "日志目录"),
        MenuId::RestartClash => locale.text("Restart Clash", "重启 Clash"),
        MenuId::RestartApp => locale.text("Restart App", "重启应用"),
        MenuId::AppVersion => "Version ",
        MenuId::Quit => locale.text("Quit", "退出"),
    };
    let mut label = text.to_owned();
    match id {
        MenuId::AppVersion => {
            label.append(version);
        },
        _ => {},
    }
    label
}

/// The check marks of the six checkable items.
#[derive(Clone, Copy, Debug, PartialEq, Eq, Structural)]
pub struct CheckStates {
    pub rule: bool,
    pub global: bool,
    pub direct: bool,
    pub system_proxy: bool,
    pub tun_mode: bool,
    pub service_mode: bool,
}

impl CheckStates {
    /// No item checked.
    pub open spec fn none() -> CheckStates {
        CheckStates {
            rule: false,
            global: false,
            direct: false,
            system_proxy: false,
            tun_mode: false,
            service_mode: false,
        }
    }

    /// The check mark of an item; `false` for an item that has none.
    pub open spec fn of(self, id: MenuId) -> bool {
        match id {
            MenuId::RuleMode => self.rule,
            MenuId::GlobalMode => self.global,
            MenuId::DirectMode => self.direct,
            MenuId::SystemProxy => self.system_proxy,
            MenuId::TunMode => self.tun_mode,
            MenuId::ServiceMode => self.service_mode,
            _ => false,
        }
    }

    /// These check marks with the one of `id` replaced.
    pub open spec fn with(self, id: MenuId, checked: bool) -> CheckStates {
        match id {
            MenuId::RuleMode => CheckStates { rule: checked, ..self },
            MenuId::GlobalMode => CheckStates { global: checked, ..self },
            MenuId::DirectMode => CheckStates { direct: checked, ..self },
            MenuId::SystemProxy => CheckStates { system_proxy: checked, ..self },
            MenuId::TunMode => CheckStates { tun_mode: checked, ..self },
            MenuId::ServiceMode => CheckStates { service_mode: checked, ..self },
            _ => self,
        }
    }
}

/// A leaf of the menu tree.
#[derive(Clone, Debug, PartialEq, Eq)]
pub struct MenuItem {
    pub id: MenuId,
    pub label: String,
    /// `None` for a plain action, the check mark for a checkable item.
    pub checked: Option<bool>,
    pub enabled: bool,
}

pub struct MenuItemView {
    pub id: MenuId,
    pub label: Seq<char>,
    pub checked: Option<bool>,
    pub enabled: bool,
}

impl View for MenuItem {
    type V = MenuItemView;

    open spec fn view(&self) -> MenuItemView {
        MenuItemView {
            id: self.id,
            label: self.label@,
            checked: self.checked,
            enabled: self.enabled,
        }
    }
}

/// One entry of the top level.
#[derive(Clone, Debug, PartialEq, Eq)]
pub enum MenuEntry {
    Item(MenuItem),
    Separator,
    Submenu { label: String, items: Vec<MenuItem> },
}

pub enum MenuEntryView {
    Item(MenuItemView),
    Separator,
    Submenu { label: Seq<char>, items: Seq<MenuItemView> },
}

/// The items of a submenu as plain values, in order.
pub open spec fn items_view(items: Seq<MenuItem>) -> Seq<MenuItemView> {
    items.map_values(|item: MenuItem| item@)
}

impl View for MenuEntry {
    type V = MenuEntryView;

    open spec fn view(&self) -> MenuEntryView {
        match self {
            MenuEntry::Item(item) => MenuEntryView::Item(item@),
            MenuEntry::Separator => MenuEntryView::Separator,
            MenuEntry::Submenu { label, items } => MenuEntryView::Submenu {
                label: label@,
                items: items_view(items@),
            },
        }
    }
}

/// The whole menu: the top-level entries in display order.
#[derive(Clone, Debug, PartialEq, Eq)]
pub struct TrayMenuModel {
    pub entries: Vec<MenuEntry>,
}

impl View for TrayMenuModel {
    type V = Seq<MenuEntryView>;

    open spec fn view(&self) -> Seq<MenuEntryView> {
        self.entries@.map_values(|entry: MenuEntry| entry@)
    }
}

/// The item with identifier `id` as the menu shows it: only the version
/// entry is disabled, and only checkable items carry a check mark.
pub open spec fn item_model(
    id: MenuId,
    locale: Locale,
    version: Seq<char>,
    checks: CheckStates,
) -> MenuItemView {
    MenuItemView {
        id,
        label: item_label(id, locale, version),
        checked: if id.checkable() {
            Some(checks.of(id))
        } else {
            None
        },
        enabled: id != MenuId::AppVersion,
    }
}

/// The menu for a locale, a version string and the six check marks.
pub open spec fn menu_model(locale: Locale, version: Seq<char>, checks: CheckStates) -> Seq<
    MenuEntryView,
> {
    seq![
        MenuEntryView::Item(item_model(MenuId::OpenWindow, locale, version, checks)),
        MenuEntryView::Separator,
        MenuEntryView::Item(item_model(MenuId::RuleMode, locale, version, checks)),
        MenuEntryView::Item(item_model(MenuId::GlobalMode, locale, version, checks)),
        MenuEntryView::Item(item_model(MenuId::DirectMode, locale, version, checks)),
        MenuEntryView::Separator,
        MenuEntryView::Item(item_model(MenuId::SystemProxy, locale, version, checks)),
        MenuEntryView::Item(item_model(MenuId::TunMode, locale, version, checks)),
        MenuEntryView::Separator,
        MenuEntryView::Item(item_model(MenuId::ServiceMode, locale, version, checks)),
        MenuEntryView::Separator,
        MenuEntryView::Item(item_model(MenuId::CopyEnv, locale, version, checks)),
        MenuEntryView::Submenu {
            label: SubmenuId::OpenDir.label(locale),
            items: seq![
                item_model(MenuId::OpenAppDir, locale, version, checks),
                item_model(MenuId::OpenCoreDir, locale, version, checks),
                item_model(MenuId::OpenLogsDir, locale, version, checks),
            ],
        },
        MenuEntryView::Submenu {
            label: SubmenuId::More.label(locale),
            items: seq![
                item_model(MenuId::RestartClash, locale, version, checks),
                item_model(MenuId::RestartApp, locale, version, checks),
                item_model(MenuId::AppVersion, locale, version, checks),
            ],
        },
        MenuEntryView::Separator,
        MenuEntryView::Item(item_model(MenuId::Quit, locale, version, checks)),
    ]
}

impl MenuItem {
    /// The unchecked item with identifier `id`.
    pub fn new(id: MenuId, locale: Locale, version: &str) -> (item: MenuItem)
        ensures
            item@ == item_model(id, locale, version@, CheckStates::none()),
    {
        let checked = if id.is_checkable() {
            Some(false)
        } else {
            None
        };
        let enabled = match id {
            MenuId::AppVersion => false,
            _ => true,
        };
        MenuItem { id, label: label_of(id, locale, version), checked, enabled }
    }
}

fn submenu(
    which: SubmenuId,
    first: MenuId,
    second: MenuId,
    third: MenuId,
    locale: Locale,
    version: &str,
) -> (entry: MenuEntry)
    ensures
        entry@ == (MenuEntryView::Submenu {
            label: which.label(locale),
            items: seq![
                item_model(first, locale, version@, CheckStates::none()),
                item_model(second, locale, version@, CheckStates::none()),
                item_model(third, locale, version@, CheckStates::none()),
            ],
        }),
{
    let mut items: Vec<MenuItem> = Vec::new();
    items.push(MenuItem::new(first, locale, version));
    items.push(MenuItem::new(second, locale, version));
    items.push(MenuItem::new(third, locale, version));
    let entry = MenuEntry::Submenu { label: which.label_text(locale).to_owned(), items };
    assert(entry@->Submenu_items =~= seq![
        item_model(first, locale, version@, CheckStates::none()),
        item_model(second, locale, version@, CheckStates::none()),
        item_model(third, locale, version@, CheckStates::none()),
    ]);
    entry
}

impl TrayMenuModel {
    /// Builds the menu skeleton with every checkable item unchecked.
    pub fn build(locale: Locale, version: &str) -> (menu: TrayMenuModel)
        ensures
            menu@ == menu_model(locale, version@, CheckStates::none()),
    {
        let mut entries: Vec<MenuEntry> = Vec::new();
        entries.push(MenuEntry::Item(MenuItem::new(MenuId::OpenWindow, locale, version)));
        entries.push(MenuEntry::Separator);
        entries.push(MenuEntry::Item(MenuItem::new(MenuId::RuleMode, locale, version)));
        entries.push(MenuEntry::Item(MenuItem::new(MenuId::GlobalMode, locale, version)));
        entries.push(MenuEntry::Item(MenuItem::new(MenuId::DirectMode, locale, version)));
        entries.push(MenuEntry::Separator);
        entries.push(MenuEntry::Item(MenuItem::new(MenuId::SystemProxy, locale, version)));
        entries.push(MenuEntry::Item(MenuItem::new(MenuId::TunMode, locale, version)));
        entries.push(MenuEntry::Separator);
        entries.push(MenuEntry::Item(MenuItem::new(MenuId::ServiceMode, locale, version)));
        entries.push(MenuEntry::Separator);
        entries.push(MenuEntry::Item(MenuItem::new(MenuId::CopyEnv, locale, version)));
        entries.push(
            submenu(
                SubmenuId::OpenDir,
                MenuId::OpenAppDir,
                MenuId::OpenCoreDir,
                MenuId::OpenLogsDir,
                locale,
                version,
            ),
        );
        entries.push(
            submenu(
                SubmenuId::More,
                MenuId::RestartClash,
                MenuId::RestartApp,
                MenuId::AppVersion,
                locale,
                version,
            ),
        );
        entries.push(MenuEntry::Separator);
        entries.push(MenuEntry::Item(MenuItem::new(MenuId::Quit, locale, version)));
        let menu = TrayMenuModel { entries };
        assert(menu@ =~= menu_model(locale, version@, CheckStates::none()));
        menu
    }
}

/// An item after the check mark of `id` was set: only a checkable item with
/// that identifier changes.
pub open spec fn item_with_checked(item: MenuItemView, id: MenuId, checked: bool) -> MenuItemView {
    if item.id == id && item.checked is Some {
        MenuItemView { checked: Some(checked), ..item }
    } else {
        item
    }
}

/// An entry after the check mark of `id` was set, in a submenu's items too.
pub open spec fn entry_with_checked(
    entry: MenuEntryView,
    id: MenuId,
    checked: bool,
) -> MenuEntryView {
    match entry {
        MenuEntryView::Item(item) => MenuEntryView::Item(item_with_checked(item, id, checked)),
        MenuEntryView::Separator => MenuEntryView::Separator,
        MenuEntryView::Submenu { label, items } => MenuEntryView::Submenu {
            label,
            items: items.map_values(|item: MenuItemView| item_with_checked(item, id, checked)),
        },
    }
}

/// A menu after the check mark of `id` was set, at every depth.
pub open spec fn menu_with_checked(menu: Seq<MenuEntryView>, id: MenuId, checked: bool) -> Seq<
    MenuEntryView,
> {
    menu.map_values(|entry: MenuEntryView| entry_with_checked(entry, id, checked))
}

/// The check mark of the first checkable item with identifier `id` among
/// `items[from..]`, or `None` where there is no such item.
pub open spec fn items_checked_from(items: Seq<MenuItemView>, id: MenuId, from: int) -> Option<
    bool,
>
    decreases items.len() - from,
{
    if from < 0 || from >= items.len() {
        None
    } else if items[from].id == id && items[from].checked is Some {
        items[from].checked
    } else {
        items_checked_from(items, id, from + 1)
    }
}

/// The check mark that one entry shows for `id`: its own, or that of the
/// first checkable item with this identifier in a submenu.
pub open spec fn entry_checked(entry: MenuEntryView, id: MenuId) -> Option<bool> {
    match entry {
        MenuEntryView::Item(item) => if item.id == id {
            item.checked
        } else {
            None
        },
        MenuEntryView::Separator => None,
        MenuEntryView::Submenu { label, items } => items_checked_from(items, id, 0),
    }
}

/// The check mark of the first checkable item with identifier `id` in
/// `menu[from..]`, submenus included, or `None` where there is no such item.
pub open spec fn menu_checked_from(menu: Seq<MenuEntryView>, id: MenuId, from: int) -> Option<bool>
    decreases menu.len() - from,
{
    if from < 0 || from >= menu.len() {
        None
    } else {
        match entry_checked(menu[from], id) {
            Some(checked) => Some(checked),
            None => menu_checked_from(menu, id, from + 1),
        }
    }
}

/// The check mark that the menu shows for `id`, if it has a checkable item
/// with that identifier.
pub open spec fn checked_state(menu: Seq<MenuEntryView>, id: MenuId) -> Option<bool> {
    menu_checked_from(menu, id, 0)
}

impl MenuItem {
    /// A copy of this item with the check mark of `id` set.
    pub fn with_checked(&self, id: MenuId, checked: bool) -> (item: MenuItem)
        ensures
            item@ == item_with_checked(self@, id, checked),
    {
        let mark = match self.checked {
            Some(current) => if self.id == id {
                Some(checked)
            } else {
                Some(current)
            },
            None => None,
        };
        MenuItem { id: self.id, label: self.label.clone(), checked: mark, enabled: self.enabled }
    }
}

fn items_with_checked(items: &Vec<MenuItem>, id: MenuId, checked: bool) -> (out: Vec<MenuItem>)
    ensures
        items_view(out@) == items_view(items@).map_values(
            |item: MenuItemView| item_with_checked(item, id, checked),
        ),
{
    let mut out: Vec<MenuItem> = Vec::new();
    let mut i: usize = 0;
    while i < items.len()
        invariant
            i <= items.len(),
            out@.len() == i,
            forall|j: int| 0 <= j < i ==> out@[j]@ == item_with_checked(items@[j]@, id, checked),
        decreases items.len() - i,
    {
        out.push(items[i].with_checked(id, checked));
        i += 1;
    }
    assert(items_view(out@) =~= items_view(items@).map_values(
        |item: MenuItemView| item_with_checked(item, id, checked),
    ));
    out
}

fn items_checked(items: &Vec<MenuItem>, id: MenuId) -> (found: Option<bool>)
    ensures
        found == items_checked_from(items_view(items@), id, 0),
{
    let mut i: usize = 0;
    while i < items.len()
        invariant
            i <= items.len(),
            items_checked_from(items_view(items@), id, 0) == items_checked_from(
                items_view(items@),
                id,
                i as int,
            ),
        decreases items.len() - i,
    {
        let item = &items[i];
        assert(items_view(items@)[i as int] == item@);
        if item.id == id {
            match item.checked {
                Some(checked) => {
                    return Some(checked);
                },
                None => {},
            }
        }
        i += 1;
    }
    None
}

impl MenuEntry {
    /// A copy of this entry with the check mark of `id` set.
    pub fn with_checked(&self, id: MenuId, checked: bool) -> (entry: MenuEntry)
        ensures
            entry@ == entry_with_checked(self@, id, checked),
    {
        match self {
            MenuEntry::Item(item) => MenuEntry::Item(item.with_checked(id, checked)),
            MenuEntry::Separator => MenuEntry::Separator,
            MenuEntry::Submenu { label, items } => MenuEntry::Submenu {
                label: label.clone(),
                items: items_with_checked(items, id, checked),
            },
        }
    }

    /// The check mark that this entry shows for `id`.
    pub fn is_checked(&self, id: MenuId) -> (found: Option<bool>)
        ensures
            found == entry_checked(self@, id),
    {
        match self {
            MenuEntry::Item(item) => if item.id == id {
                item.checked
            } else {
                None
            },
            MenuEntry::Separator => None,
            MenuEntry::Submenu { label, items } => items_checked(items, id),
        }
    }
}

impl TrayMenuModel {
    /// Sets the check mark of every checkable item with identifier `id`.
    /// Other items, labels and the order of entries stay as they are.
    pub fn set_checked(&mut self, id: MenuId, checked: bool)
        ensures
            final(self)@ == menu_with_checked(old(self)@, id, checked),
    {
        let mut entries: Vec<MenuEntry> = Vec::new();
        let mut i: usize = 0;
        while i < self.entries.len()
            invariant
                i <= self.entries.len(),
                entries@.len() == i,
                forall|j: int|
                    0 <= j < i ==> entries@[j]@ == entry_with_checked(
                        self.entries@[j]@,
                        id,
                        checked,
                    ),
            decreases self.entries.len() - i,
        {
            entries.push(self.entries[i].with_checked(id, checked));
            i += 1;
        }
        let ghost before = self@;
        self.entries = entries;
        assert(self@ =~= menu_with_checked(before, id, checked));
    }

    /// The check mark that the menu shows for `id`: that of the first
    /// checkable item with this identifier, `None` where there is none.
    pub fn is_checked(&self, id: MenuId) -> (found: Option<bool>)
        ensures
            found == checked_state(self@, id),
    {
        let mut i: usize = 0;
        while i < self.entries.len()
            invariant
                i <= self.entries.len(),
                checked_state(self@, id) == menu_checked_from(self@, id, i as int),
            decreases self.entries.len() - i,
        {
            assert(self@[i as int] == self.entries@[i as int]@);
            match self.entries[i].is_checked(id) {
                Some(checked) => {
                    return Some(checked);
                },
                None => {},
            }
            i += 1;
        }
        None
    }
}

/// Setting a check mark in the menu of some check marks gives the menu of
/// the check marks with that one replaced.
pub proof fn lemma_set_checked_in_model(
    locale: Locale,
    version: Seq<char>,
    checks: CheckStates,
    id: MenuId,
    checked: bool,
)
    ensures
        menu_with_checked(menu_model(locale, version, checks), id, checked) == menu_model(
            locale,
            version,
            checks.with(id, checked),
        ),
{
    let before = menu_model(locale, version, checks);
    let after = menu_model(locale, version, checks.with(id, checked));
    let set = menu_with_checked(before, id, checked);
    assert(set.len() == after.len());
    assert(set[12]->Submenu_items =~= after[12]->Submenu_items);
    assert(set[13]->Submenu_items =~= after[13]->Submenu_items);
    assert(set =~= after);
}

/// The menu of some check marks shows exactly these: each checkable
/// identifier has its mark, and no other identifier has one.
pub proof fn lemma_model_shows_checks(
    locale: Locale,
    version: Seq<char>,
    checks: CheckStates,
    id: MenuId,
)
    ensures
        checked_state(menu_model(locale, version, checks), id) == if id.checkable() {
            Some(checks.of(id))
        } else {
            None
        },
{
    reveal_with_fuel(menu_checked_from, 18);
    reveal_with_fuel(items_checked_from, 5);
}

} // verus!
