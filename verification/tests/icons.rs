use clash_verge::config::IconStyle;
use clash_verge::icon::{
    resolve_icon, BundledIcons, IconAssets, IconCategory, OverrideFiles, OverrideFlags,
    OverrideLookup, Platform,
};

fn bundled(tag: u8) -> BundledIcons {
    BundledIcons {
        monochrome: vec![tag, 1],
        colorful: vec![tag, 2],
        raster: vec![tag, 3],
    }
}

fn assets() -> IconAssets {
    IconAssets {
        common: bundled(10),
        sysproxy: bundled(20),
        tun: bundled(30),
    }
}

fn files(ico: Option<Vec<u8>>, png: Option<Vec<u8>>) -> OverrideFiles {
    OverrideFiles { ico, png }
}

fn all_files() -> OverrideLookup {
    OverrideLookup {
        common: files(Some(vec![1, 0]), Some(vec![1, 9])),
        sysproxy: files(Some(vec![2, 0]), Some(vec![2, 9])),
        tun: files(Some(vec![3, 0]), Some(vec![3, 9])),
    }
}

fn flags(common: bool, sysproxy: bool, tun: bool) -> OverrideFlags {
    OverrideFlags {
        common,
        sysproxy,
        tun,
    }
}

const RASTER: Platform = Platform {
    template_icons: false,
};
const TEMPLATE: Platform = Platform {
    template_icons: true,
};

#[test]
fn category_precedence() {
    assert_eq!(IconCategory::of_state(false, false), IconCategory::Common);
    assert_eq!(IconCategory::of_state(true, false), IconCategory::SysProxy);
    assert_eq!(IconCategory::of_state(false, true), IconCategory::Tun);
    assert_eq!(IconCategory::of_state(true, true), IconCategory::Tun);
}

#[test]
fn override_file_stems() {
    assert_eq!(IconCategory::Common.file_stem(), "common");
    assert_eq!(IconCategory::SysProxy.file_stem(), "sysproxy");
    assert_eq!(IconCategory::Tun.file_stem(), "tun");
}

#[test]
fn tun_icon_whatever_the_system_proxy() {
    for style in [IconStyle::Monochrome, IconStyle::Colorful] {
        let with = resolve_icon(true, true, style, flags(false, false, false), RASTER, &assets(), &all_files());
        let without = resolve_icon(false, true, style, flags(false, false, false), RASTER, &assets(), &all_files());
        assert_eq!(with, vec![30, 3]);
        assert_eq!(without, vec![30, 3]);
    }
}

#[test]
fn ico_override_is_preferred_over_png() {
    let all = flags(true, true, true);
    assert_eq!(
        resolve_icon(false, false, IconStyle::Monochrome, all, RASTER, &assets(), &all_files()),
        vec![1, 0]
    );
    assert_eq!(
        resolve_icon(true, false, IconStyle::Monochrome, all, TEMPLATE, &assets(), &all_files()),
        vec![2, 0]
    );
    assert_eq!(
        resolve_icon(true, true, IconStyle::Colorful, all, TEMPLATE, &assets(), &all_files()),
        vec![3, 0]
    );
}

#[test]
fn png_override_is_used_without_ico() {
    let lookup = OverrideLookup {
        common: OverrideFiles::none(),
        sysproxy: files(None, Some(vec![2, 9])),
        tun: OverrideFiles::none(),
    };
    assert_eq!(
        resolve_icon(true, false, IconStyle::Monochrome, flags(true, true, true), RASTER, &assets(), &lookup),
        vec![2, 9]
    );
}

#[test]
fn missing_override_falls_back_to_bundled() {
    let lookup = OverrideLookup {
        common: OverrideFiles::none(),
        sysproxy: OverrideFiles::none(),
        tun: OverrideFiles::none(),
    };
    assert_eq!(
        resolve_icon(false, false, IconStyle::Monochrome, flags(true, true, true), RASTER, &assets(), &lookup),
        vec![10, 3]
    );
    assert_eq!(
        resolve_icon(false, true, IconStyle::Colorful, flags(true, true, true), TEMPLATE, &assets(), &lookup),
        vec![30, 2]
    );
}

#[test]
fn override_of_another_category_is_ignored() {
    // Only the flag of the selected category counts.
    assert_eq!(
        resolve_icon(true, false, IconStyle::Monochrome, flags(true, false, true), RASTER, &assets(), &all_files()),
        vec![20, 3]
    );
    assert_eq!(
        resolve_icon(true, true, IconStyle::Monochrome, flags(true, true, false), RASTER, &assets(), &all_files()),
        vec![30, 3]
    );
}

#[test]
fn bundled_asset_by_platform_and_style() {
    let none = flags(false, false, false);
    assert_eq!(
        resolve_icon(true, false, IconStyle::Monochrome, none, TEMPLATE, &assets(), &all_files()),
        vec![20, 1]
    );
    assert_eq!(
        resolve_icon(true, false, IconStyle::Colorful, none, TEMPLATE, &assets(), &all_files()),
        vec![20, 2]
    );
    assert_eq!(
        resolve_icon(true, false, IconStyle::Colorful, none, RASTER, &assets(), &all_files()),
        vec![20, 3]
    );
    assert_eq!(
        resolve_icon(false, false, IconStyle::Monochrome, none, RASTER, &assets(), &all_files()),
        vec![10, 3]
    );
}

#[test]
fn resolution_is_repeatable() {
    let all = flags(true, false, true);
    let first = resolve_icon(true, false, IconStyle::Colorful, all, TEMPLATE, &assets(), &all_files());
    let second = resolve_icon(true, false, IconStyle::Colorful, all, TEMPLATE, &assets(), &all_files());
    assert_eq!(first, second);
    assert_eq!(first, vec![20, 2]);
}

#[test]
fn preferred_override_file() {
    assert_eq!(files(Some(vec![1]), Some(vec![2])).preferred(), Some(&vec![1]));
    assert_eq!(files(None, Some(vec![2])).preferred(), Some(&vec![2]));
    assert_eq!(files(Some(vec![1]), None).preferred(), Some(&vec![1]));
    assert_eq!(OverrideFiles::none().preferred(), None);
}
