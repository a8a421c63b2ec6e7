//! Which bytes the tray icon shows for a given state.
//!
//! The choice depends on nothing but the arguments: the two toggles that
//! have an icon of their own, the style preference, the override flags, the
//! override files that were found, the bundled assets and what the platform
//! can draw.

use crate::config::IconStyle;
use vstd::prelude::*;

verus! {

/// The state whose icon is shown. Each has its own bundled assets and its own
/// place for a user-supplied file.
#[derive(Clone, Copy, Debug, PartialEq, Eq, Structural)]
pub enum IconCategory {
    Common,
    SysProxy,
    Tun,
}

impl IconCategory {
    /// TUN mode wins over the system proxy, which wins over the idle state.
    pub open spec fn select(system_proxy: bool, tun_mode: bool) -> IconCategory {
        if tun_mode {
            IconCategory::Tun
        } else if system_proxy {
            IconCategory::SysProxy
        } else {
            IconCategory::Common
        }
    }

    /// The category whose icon is shown for the two toggles.
    pub fn of_state(system_proxy: bool, tun_mode: bool) -> (category: IconCategory)
        ensures
            category == IconCategory::select(system_proxy, tun_mode),
    {
        if tun_mode {
            IconCategory::Tun
        } else if system_proxy {
            IconCategory::SysProxy
        } else {
            IconCategory::Common
        }
    }

    /// The file stem of the category's override files: `<stem>.ico` and
    /// `<stem>.png` in the icon directory.
    pub open spec fn stem(self) -> Seq<char> {
        match self {
            IconCategory::Common => "common"@,
            IconCategory::SysProxy => "sysproxy"@,
            IconCategory::Tun => "tun"@,
        }
    }

    /// The file stem of the category's override files.
    pub fn file_stem(self) -> (stem: &'static str)
        ensures
            stem@ == self.stem(),
    {
        match self {
            IconCategory::Common => "common",
            IconCategory::SysProxy => "sysproxy",
            IconCategory::Tun => "tun",
        }
    }
}

/// Per category, whether a user-supplied file is preferred over the bundled
/// asset.
#[derive(Clone, Copy, Debug, PartialEq, Eq, Structural)]
pub struct OverrideFlags {
    pub common: bool,
    pub sysproxy: bool,
    pub tun: bool,
}

impl OverrideFlags {
    pub open spec fn enabled(self, category: IconCategory) -> bool {
        match category {
            IconCategory::Common => self.common,
            IconCategory::SysProxy => self.sysproxy,
            IconCategory::Tun => self.tun,
        }
    }

    /// Whether the category's override flag is set.
    pub fn is_enabled(&self, category: IconCategory) -> (on: bool)
        ensures
            on == self.enabled(category),
    {
        match category {
            IconCategory::Common => self.common,
            IconCategory::SysProxy => self.sysproxy,
            IconCategory::Tun => self.tun,
        }
    }
}

/// What the platform's tray can draw.
#[derive(Clone, Copy, Debug, PartialEq, Eq, Structural)]
pub struct Platform {
    /// Whether the tray tints template icons itself.
    pub template_icons: bool,
}

/// The bundled assets of one category.
#[derive(Clone, Debug, PartialEq, Eq)]
pub struct BundledIcons {
    /// The tintable single-colour asset.
    pub monochrome: Vec<u8>,
    /// The full-colour asset for platforms with template support.
    pub colorful: Vec<u8>,
    /// The one asset for platforms without template support.
    pub raster: Vec<u8>,
}

pub struct BundledIconsView {
    pub monochrome: Seq<u8>,
    pub colorful: Seq<u8>,
    pub raster: Seq<u8>,
}

impl View for BundledIcons {
    type V = BundledIconsView;

    open spec fn view(&self) -> BundledIconsView {
        BundledIconsView {
            monochrome: self.monochrome@,
            colorful: self.colorful@,
            raster: self.raster@,
        }
    }
}

impl BundledIconsView {
    /// The asset that fits the platform and the style preference.
    pub open spec fn pick(self, platform: Platform, style: IconStyle) -> Seq<u8> {
        if !platform.template_icons {
            self.raster
        } else if style == IconStyle::Colorful {
            self.colorful
        } else {
            self.monochrome
        }
    }
}

/// The bundled assets of all categories.
#[derive(Clone, Debug, PartialEq, Eq)]
pub struct IconAssets {
    pub common: BundledIcons,
    pub sysproxy: BundledIcons,
    pub tun: BundledIcons,
}

pub struct IconAssetsView {
    pub common: BundledIconsView,
    pub sysproxy: BundledIconsView,
    pub tun: BundledIconsView,
}

impl View for IconAssets {
    type V = IconAssetsView;

    open spec fn view(&self) -> IconAssetsView {
        IconAssetsView { common: self.common@, sysproxy: self.sysproxy@, tun: self.tun@ }
    }
}

impl IconAssetsView {
    pub open spec fn of(self, category: IconCategory) -> BundledIconsView {
        match category {
            IconCategory::Common => self.common,
            IconCategory::SysProxy => self.sysproxy,
            IconCategory::Tun => self.tun,
        }
    }
}

/// The user-supplied files of one category, as far as they could be read.
/// A file that is missing or unreadable is `None`.
#[derive(Clone, Debug, PartialEq, Eq)]
pub struct OverrideFiles {
    pub ico: Option<Vec<u8>>,
    pub png: Option<Vec<u8>>,
}

pub struct OverrideFilesView {
    pub ico: Option<Seq<u8>>,
    pub png: Option<Seq<u8>>,
}

/// The bytes of an optional file.
pub open spec fn file_bytes(file: &Option<Vec<u8>>) -> Option<Seq<u8>> {
    match file {
        Some(bytes) => Some(bytes@),
        None => None,
    }
}

impl View for OverrideFiles {
    type V = OverrideFilesView;

    open spec fn view(&self) -> OverrideFilesView {
        OverrideFilesView { ico: file_bytes(&self.ico), png: file_bytes(&self.png) }
    }
}

impl OverrideFilesView {
    /// The `.ico` file where there is one, else the `.png` file, else nothing.
    pub open spec fn preferred(self) -> Option<Seq<u8>> {
        if self.ico is Some {
            self.ico
        } else {
            self.png
        }
    }
}

/// The override files of all categories.
#[derive(Clone, Debug, PartialEq, Eq)]
pub struct OverrideLookup {
    pub common: OverrideFiles,
    pub sysproxy: OverrideFiles,
    pub tun: OverrideFiles,
}

pub struct OverrideLookupView {
    pub common: OverrideFilesView,
    pub sysproxy: OverrideFilesView,
    pub tun: OverrideFilesView,
}

impl View for OverrideLookup {
    type V = OverrideLookupView;

    open spec fn view(&self) -> OverrideLookupView {
        OverrideLookupView { common: self.common@, sysproxy: self.sysproxy@, tun: self.tun@ }
    }
}

impl OverrideLookupView {
    pub open spec fn of(self, category: IconCategory) -> OverrideFilesView {
        match category {
            IconCategory::Common => self.common,
            IconCategory::SysProxy => self.sysproxy,
            IconCategory::Tun => self.tun,
        }
    }
}

/// The icon of one category: the user's file where the category's flag is set
/// and a file was found, the bundled asset otherwise.
pub open spec fn category_icon(
    category: IconCategory,
    style: IconStyle,
    flags: OverrideFlags,
    platform: Platform,
    assets: IconAssetsView,
    lookup: OverrideLookupView,
) -> Seq<u8> {
    let bundled = assets.of(category).pick(platform, style);
    if flags.enabled(category) {
        match lookup.of(category).preferred() {
            Some(bytes) => bytes,
            None => bundled,
        }
    } else {
        bundled
    }
}

/// The icon that the tray shows.
pub open spec fn resolved_icon(
    system_proxy: bool,
    tun_mode: bool,
    style: IconStyle,
    flags: OverrideFlags,
    platform: Platform,
    assets: IconAssetsView,
    lookup: OverrideLookupView,
) -> Seq<u8> {
    category_icon(
        IconCategory::select(system_proxy, tun_mode),
        style,
        flags,
        platform,
        assets,
        lookup,
    )
}

fn copy_bytes(bytes: &Vec<u8>) -> (copy: Vec<u8>)
    ensures
        copy@ == bytes@,
{
    let copy = bytes.clone();
    assert(copy@ =~= bytes@);
    copy
}

impl BundledIcons {
    /// The asset that fits the platform and the style preference.
    pub fn pick(&self, platform: Platform, style: IconStyle) -> (bytes: &Vec<u8>)
        ensures
            bytes@ == self@.pick(platform, style),
    {
        if !platform.template_icons {
            &self.raster
        } else {
            match style {
                IconStyle::Colorful => &self.colorful,
                IconStyle::Monochrome => &self.monochrome,
            }
        }
    }
}

impl IconAssets {
    /// The bundled assets of a category.
    pub fn of(&self, category: IconCategory) -> (icons: &BundledIcons)
        ensures
            icons@ == self@.of(category),
    {
        match category {
            IconCategory::Common => &self.common,
            IconCategory::SysProxy => &self.sysproxy,
            IconCategory::Tun => &self.tun,
        }
    }
}

impl OverrideFiles {
    /// No file of either format.
    pub fn none() -> (files: OverrideFiles)
        ensures
            files@.ico is None,
            files@.png is None,
    {
        OverrideFiles { ico: None, png: None }
    }

    /// The `.ico` file where there is one, else the `.png` file, else nothing.
    pub fn preferred(&self) -> (bytes: Option<&Vec<u8>>)
        ensures
            match bytes {
                Some(b) => self@.preferred() == Some(b@),
                None => self@.preferred() is None,
            },
    {
        match &self.ico {
            Some(bytes) => Some(bytes),
            None => match &self.png {
                Some(bytes) => Some(bytes),
                None => None,
            },
        }
    }
}

impl OverrideLookup {
    /// The override files of a category.
    pub fn of(&self, category: IconCategory) -> (files: &OverrideFiles)
        ensures
            files@ == self@.of(category),
    {
        match category {
            IconCategory::Common => &self.common,
            IconCategory::SysProxy => &self.sysproxy,
            IconCategory::Tun => &self.tun,
        }
    }
}

/// Resolves the tray icon. Always succeeds: a missing override file means the
/// bundled asset is shown.
pub fn resolve_icon(
    system_proxy: bool,
    tun_mode: bool,
    style: IconStyle,
    flags: OverrideFlags,
    platform: Platform,
    assets: &IconAssets,
    lookup: &OverrideLookup,
) -> (icon: Vec<u8>)
    ensures
        icon@ == resolved_icon(system_proxy, tun_mode, style, flags, platform, assets@, lookup@),
{
    let category = IconCategory::of_state(system_proxy, tun_mode);
    let bundled = assets.of(category).pick(platform, style);
    if flags.is_enabled(category) {
        match lookup.of(category).preferred() {
            Some(bytes) => copy_bytes(bytes),
            None => copy_bytes(bundled),
        }
    } else {
        copy_bytes(bundled)
    }
}

/// With TUN mode on, the icon is that of the TUN category whatever the
/// system proxy switch says.
pub proof fn lemma_tun_takes_precedence(
    system_proxy: bool,
    style: IconStyle,
    flags: OverrideFlags,
    platform: Platform,
    assets: IconAssetsView,
    lookup: OverrideLookupView,
)
    ensures
        IconCategory::select(system_proxy, true) == IconCategory::Tun,
        resolved_icon(system_proxy, true, style, flags, platform, assets, lookup)
            == category_icon(IconCategory::Tun, style, flags, platform, assets, lookup),
        resolved_icon(system_proxy, true, style, flags, platform, assets, lookup)
            == resolved_icon(!system_proxy, true, style, flags, platform, assets, lookup),
{
}

/// Where the selected category's override flag is set and both override
/// files exist, the icon is the `.ico` file.
pub proof fn lemma_ico_override_wins(
    system_proxy: bool,
    tun_mode: bool,
    style: IconStyle,
    flags: OverrideFlags,
    platform: Platform,
    assets: IconAssetsView,
    lookup: OverrideLookupView,
)
    requires
        flags.enabled(IconCategory::select(system_proxy, tun_mode)),
        lookup.of(IconCategory::select(system_proxy, tun_mode)).ico is Some,
        lookup.of(IconCategory::select(system_proxy, tun_mode)).png is Some,
    ensures
        Some(resolved_icon(system_proxy, tun_mode, style, flags, platform, assets, lookup))
            == lookup.of(IconCategory::select(system_proxy, tun_mode)).ico,
{
}

/// The icon depends on the content of the inputs alone: resolving again with
/// the same toggles, style, flags, platform, assets and override files gives
/// the same bytes.
pub proof fn lemma_icon_depends_on_content(
    system_proxy: bool,
    tun_mode: bool,
    style: IconStyle,
    flags: OverrideFlags,
    platform: Platform,
    first_assets: IconAssets,
    second_assets: IconAssets,
    first_lookup: OverrideLookup,
    second_lookup: OverrideLookup,
)
    requires
        first_assets@ == second_assets@,
        first_lookup@ == second_lookup@,
    ensures
        resolved_icon(system_proxy, tun_mode, style, flags, platform, first_assets@, first_lookup@)
            == resolved_icon(
            system_proxy,
            tun_mode,
            style,
            flags,
            platform,
            second_assets@,
            second_lookup@,
        ),
{
}

/// With the selected category's override flag off, or with no override file
/// found, the icon is the bundled asset for the platform and style.
pub proof fn lemma_bundled_without_override(
    system_proxy: bool,
    tun_mode: bool,
    style: IconStyle,
    flags: OverrideFlags,
    platform: Platform,
    assets: IconAssetsView,
    lookup: OverrideLookupView,
)
    requires
        ({
            let category = IconCategory::select(system_proxy, tun_mode);
            !flags.enabled(category) || (lookup.of(category).ico is None && lookup.of(
                category,
            ).png is None)
        }),
    ensures
        resolved_icon(system_proxy, tun_mode, style, flags, platform, assets, lookup) == assets.of(
            IconCategory::select(system_proxy, tun_mode),
        ).pick(platform, style),
{
}

/// Only the selected category is consulted: its flag, its override files and
/// its bundled assets decide the icon, whatever the other categories hold.
pub proof fn lemma_only_selected_category_matters(
    system_proxy: bool,
    tun_mode: bool,
    style: IconStyle,
    platform: Platform,
    first_flags: OverrideFlags,
    second_flags: OverrideFlags,
    first_assets: IconAssetsView,
    second_assets: IconAssetsView,
    first_lookup: OverrideLookupView,
    second_lookup: OverrideLookupView,
)
    requires
        ({
            let category = IconCategory::select(system_proxy, tun_mode);
            &&& first_flags.enabled(category) == second_flags.enabled(category)
            &&& first_assets.of(category) == second_assets.of(category)
            &&& first_lookup.of(category) == second_lookup.of(category)
        }),
    ensures
        resolved_icon(
            system_proxy,
            tun_mode,
            style,
            first_flags,
            platform,
            first_assets,
            first_lookup,
        ) == resolved_icon(
            system_proxy,
            tun_mode,
            style,
            second_flags,
            platform,
            second_assets,
            second_lookup,
        ),
{
}

} // verus!
