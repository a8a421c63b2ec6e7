//! Configuration facets that the tray reflects, and how raw setting values
//! are read into them.

use crate::strings::str_eq;
use vstd::prelude::*;

verus! {

/// The routing mode of the proxy core. Exactly one is active at any time.
#[derive(Clone, Copy, Debug, PartialEq, Eq, Structural)]
pub enum ProxyMode {
    Rule,
    Global,
    Direct,
}

impl ProxyMode {
    /// The mode's name as configuration files and collaborators spell it.
    pub open spec fn name(self) -> Seq<char> {
        match self {
            ProxyMode::Rule => "rule"@,
            ProxyMode::Global => "global"@,
            ProxyMode::Direct => "direct"@,
        }
    }

    /// The mode that a stored name stands for. Anything but the names of
    /// `Global` and `Direct` reads as `Rule`, the documented default.
    pub open spec fn from_name(name: Seq<char>) -> ProxyMode {
        if name == "global"@ {
            ProxyMode::Global
        } else if name == "direct"@ {
            ProxyMode::Direct
        } else {
            ProxyMode::Rule
        }
    }

    /// The mode selected by an optional setting; absent means `Rule`.
    pub open spec fn of_setting(value: Option<Seq<char>>) -> ProxyMode {
        match value {
            Some(name) => ProxyMode::from_name(name),
            None => ProxyMode::Rule,
        }
    }

    /// The mode's name, as collaborators expect it.
    pub fn as_str(self) -> (name: &'static str)
        ensures
            name@ == self.name(),
    {
        match self {
            ProxyMode::Rule => "rule",
            ProxyMode::Global => "global",
            ProxyMode::Direct => "direct",
        }
    }

    /// Reads the stored mode; absent or unknown means `Rule`.
    pub fn from_setting(value: &Option<String>) -> (mode: ProxyMode)
        ensures
            mode == ProxyMode::of_setting(option_text(value)),
    {
        match value {
            Some(name) => {
                if str_eq(name.as_str(), "global") {
                    ProxyMode::Global
                } else if str_eq(name.as_str(), "direct") {
                    ProxyMode::Direct
                } else {
                    ProxyMode::Rule
                }
            },
            None => ProxyMode::Rule,
        }
    }
}

/// The characters of an optional string.
pub open spec fn option_text(value: &Option<String>) -> Option<Seq<char>> {
    match value {
        Some(s) => Some(s@),
        None => None,
    }
}

/// The language of menu labels and tooltip text.
#[derive(Clone, Copy, Debug, PartialEq, Eq, Structural)]
pub enum Locale {
    Default,
    Zh,
}

impl Locale {
    /// Only the language tag `zh` selects `Zh`; every other tag, and none,
    /// falls back to `Default`.
    pub open spec fn of_setting(value: Option<Seq<char>>) -> Locale {
        if value == Some("zh"@) {
            Locale::Zh
        } else {
            Locale::Default
        }
    }

    /// The text for this locale out of a pair.
    pub open spec fn pick(self, default: Seq<char>, zh: Seq<char>) -> Seq<char> {
        match self {
            Locale::Default => default,
            Locale::Zh => zh,
        }
    }

    /// Picks the text for this locale out of a pair.
    pub fn text(self, default: &'static str, zh: &'static str) -> (text: &'static str)
        ensures
            text@ == self.pick(default@, zh@),
    {
        match self {
            Locale::Default => default,
            Locale::Zh => zh,
        }
    }

    /// Reads the stored language tag.
    pub fn from_setting(value: &Option<String>) -> (locale: Locale)
        ensures
            locale == Locale::of_setting(option_text(value)),
    {
        match value {
            Some(tag) => {
                if str_eq(tag.as_str(), "zh") {
                    Locale::Zh
                } else {
                    Locale::Default
                }
            },
            None => Locale::Default,
        }
    }
}

/// How bundled icons are drawn where the platform can tint them.
#[derive(Clone, Copy, Debug, PartialEq, Eq, Structural)]
pub enum IconStyle {
    Monochrome,
    Colorful,
}

impl IconStyle {
    /// Only the value `colorful` selects `Colorful`; every other value, and
    /// none, reads as `Monochrome`.
    pub open spec fn of_setting(value: Option<Seq<char>>) -> IconStyle {
        if value == Some("colorful"@) {
            IconStyle::Colorful
        } else {
            IconStyle::Monochrome
        }
    }

    /// Reads the stored icon style; absent or unknown means `Monochrome`.
    pub fn from_setting(value: &Option<String>) -> (style: IconStyle)
        ensures
            style == IconStyle::of_setting(option_text(value)),
    {
        match value {
            Some(name) => {
                if str_eq(name.as_str(), "colorful") {
                    IconStyle::Colorful
                } else {
                    IconStyle::Monochrome
                }
            },
            None => IconStyle::Monochrome,
        }
    }

    /// Whether the tray should treat the icon as a tintable template.
    pub fn as_template(self) -> (template: bool)
        ensures
            template == (self == IconStyle::Monochrome),
    {
        match self {
            IconStyle::Monochrome => true,
            IconStyle::Colorful => false,
        }
    }
}

/// An optional switch; absent means off.
pub fn flag_or_off(value: Option<bool>) -> (on: bool)
    ensures
        on == (value == Some(true)),
{
    match value {
        Some(on) => on,
        None => false,
    }
}

/// Every mode is read back from its own name.
pub proof fn lemma_mode_round_trip(mode: ProxyMode)
    ensures
        ProxyMode::from_name(mode.name()) == mode,
        ProxyMode::of_setting(Some(mode.name())) == mode,
{
    reveal_strlit("rule");
    reveal_strlit("global");
    reveal_strlit("direct");
    assert("rule"@.len() == 4 && "global"@.len() == 6 && "direct"@.len() == 6);
    assert("global"@[0] == 'g' && "direct"@[0] == 'd');
}

} // verus!
