//! The text shown when the pointer rests on the tray icon.

use crate::config::{option_text, Locale};
use vstd::prelude::*;
use vstd::string::StringExecFns;

verus! {

/// How a switch reads in the tooltip.
pub open spec fn switch_text(on: bool) -> Seq<char> {
    if on {
        "ON"@
    } else {
        "OFF"@
    }
}

/// The profile's name, or the word `None` where no profile is current.
pub open spec fn profile_text(profile: Option<Seq<char>>) -> Seq<char> {
    match profile {
        Some(name) => name,
        None => "None"@,
    }
}

/// The tooltip: the application's name and version, then one line each for
/// the system proxy, TUN mode and the current profile.
pub open spec fn tooltip_text(
    locale: Locale,
    version: Seq<char>,
    system_proxy: bool,
    tun_mode: bool,
    profile: Option<Seq<char>>,
) -> Seq<char> {
    "Clash Verge "@ + version + "\n"@ + locale.pick("System Proxy"@, "系统代理"@) + ": "@
        + switch_text(system_proxy) + "\n"@ + locale.pick("TUN Mode"@, "Tun 模式"@) + ": "@
        + switch_text(tun_mode) + "\n"@ + locale.pick("Curent Profile"@, "当前订阅"@) + ": "@
        + profile_text(profile)
}

fn switch_str(on: bool) -> (text: &'static str)
    ensures
        text@ == switch_text(on),
{
    if on {
        "ON"
    } else {
        "OFF"
    }
}

/// Composes the tooltip.
pub fn compose_tooltip(
    locale: Locale,
    version: &str,
    system_proxy: bool,
    tun_mode: bool,
    profile: &Option<String>,
) -> (tooltip: String)
    ensures
        tooltip@ == tooltip_text(locale, version@, system_proxy, tun_mode, option_text(profile)),
{
    let mut tooltip = "Clash Verge ".to_owned();
    tooltip.append(version);
    tooltip.append("\n");
    tooltip.append(locale.text("System Proxy", "系统代理"));
    tooltip.append(": ");
    tooltip.append(switch_str(system_proxy));
    tooltip.append("\n");
    tooltip.append(locale.text("TUN Mode", "Tun 模式"));
    tooltip.append(": ");
    tooltip.append(switch_str(tun_mode));
    tooltip.append("\n");
    tooltip.append(locale.text("Curent Profile", "当前订阅"));
    tooltip.append(": ");
    match profile {
        Some(name) => tooltip.append(name.as_str()),
        None => tooltip.append("None"),
    }
    tooltip
}

/// The tooltip ends with the name of the current profile.
pub proof fn lemma_tooltip_ends_with_profile(
    locale: Locale,
    version: Seq<char>,
    system_proxy: bool,
    tun_mode: bool,
    name: Seq<char>,
)
    ensures
        name.is_suffix_of(tooltip_text(locale, version, system_proxy, tun_mode, Some(name))),
{
    let text = tooltip_text(locale, version, system_proxy, tun_mode, Some(name));
    assert(text.subrange(text.len() - name.len(), text.len() as int) =~= name);
}

/// The tooltip begins with the application's name and version.
pub proof fn lemma_tooltip_starts_with_version(
    locale: Locale,
    version: Seq<char>,
    system_proxy: bool,
    tun_mode: bool,
    profile: Option<Seq<char>>,
)
    ensures
        ("Clash Verge "@ + version).is_prefix_of(
            tooltip_text(locale, version, system_proxy, tun_mode, profile),
        ),
{
    let head = "Clash Verge "@ + version;
    let text = tooltip_text(locale, version, system_proxy, tun_mode, profile);
    assert(text.subrange(0, head.len() as int) =~= head);
}

} // verus!
