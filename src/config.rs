use vstd::prelude::*;

use crate::text::same_text;
use crate::toml_config::{default_accent_text, default_scheme_name, or_default, toml_top_string, Config};

verus! {

/// Wire code of the `default` color scheme.
pub const DEFAULT_COLOR: u32 = 0;
/// Wire code of the `dark` color scheme.
pub const DARK_COLOR: u32 = 1;
/// Wire code of the `light` color scheme.
pub const LIGHT_COLOR: u32 = 2;

/// Whether `name` is one of the three scheme names the portal knows.
pub open spec fn is_scheme_name(name: Seq<char>) -> bool {
    name == "default"@ || name == "dark"@ || name == "light"@
}

/// Wire code of a scheme name; any name but `dark` and `light` reads as the
/// default scheme.
pub open spec fn scheme_code(name: Seq<char>) -> u32 {
    if name == "dark"@ {
        DARK_COLOR
    } else if name == "light"@ {
        LIGHT_COLOR
    } else {
        DEFAULT_COLOR
    }
}

/// The scheme name kept after decoding: a recognized name stays, anything
/// else falls back to `default`.
pub open spec fn decoded_scheme(name: Seq<char>) -> Seq<char> {
    if is_scheme_name(name) {
        name
    } else {
        default_scheme_name()
    }
}

/// What `csscolorparser` makes of a CSS color text, as 8-bit red, green,
/// blue and alpha; `None` where it rejects the text.
pub uninterp spec fn css_rgba8(s: Seq<char>) -> Option<(u8, u8, u8, u8)>;

/// Relies on `csscolorparser::parse` and `Color::to_rgba8`: the 8-bit
/// channels of a CSS color, or `None` where parsing fails.
#[verifier::external_body]
fn parse_css_rgba8(s: &str) -> (r: Option<(u8, u8, u8, u8)>)
    ensures
        r == css_rgba8(s@),
{
    match csscolorparser::parse(s) {
        Ok(c) => {
            let v = c.to_rgba8();
            Some((v[0], v[1], v[2], v[3]))
        },
        Err(_) => None,
    }
}

/// An accent color as 8-bit channels; on the wire each channel `c` is the
/// double `c / 256`.
#[derive(Clone, Copy, Debug, PartialEq, Eq, Structural)]
pub struct AccentColor {
    pub red: u8,
    pub green: u8,
    pub blue: u8,
}

/// White, the accent color of the default document.
pub open spec fn white() -> AccentColor {
    AccentColor { red: 255, green: 255, blue: 255 }
}

/// The accent color decoded from a CSS color text: its red, green and blue
/// channels, or white where the text is no color.
pub open spec fn decoded_accent(s: Seq<char>) -> AccentColor {
    match css_rgba8(s) {
        Some((r, g, b, _a)) => AccentColor { red: r, green: g, blue: b },
        None => white(),
    }
}

impl AccentColor {
    /// The color from already parsed channels, white where there are none.
    pub fn from_rgba8(c: Option<(u8, u8, u8, u8)>) -> (r: AccentColor)
        ensures
            r == (match c {
                Some((red, green, blue, _a)) => AccentColor { red, green, blue },
                None => white(),
            }),
    {
        match c {
            Some((red, green, blue, _a)) => AccentColor { red, green, blue },
            None => AccentColor { red: 255, green: 255, blue: 255 },
        }
    }

    /// Decodes a CSS color text; a malformed one gives white.
    pub fn from_string(s: &str) -> (r: AccentColor)
        ensures
            r == decoded_accent(s@),
    {
        AccentColor::from_rgba8(parse_css_rgba8(s))
    }
}

/// The settings the portal serves: a scheme name and an accent color.
#[derive(Clone, Debug)]
pub struct SettingsConfig {
    pub color_scheme: String,
    pub accent_color: AccentColor,
}

impl View for SettingsConfig {
    type V = (Seq<char>, AccentColor);

    open spec fn view(&self) -> (Seq<char>, AccentColor) {
        (self.color_scheme@, self.accent_color)
    }
}

/// The settings decoded from a document's two texts.
pub open spec fn decoded_settings(scheme: Seq<char>, accent: Seq<char>) -> (Seq<char>, AccentColor) {
    (decoded_scheme(scheme), decoded_accent(accent))
}

/// The settings of the default document.
pub open spec fn default_settings() -> (Seq<char>, AccentColor) {
    (default_scheme_name(), white())
}

impl PartialEq for SettingsConfig {
    fn eq(&self, other: &SettingsConfig) -> (r: bool) {
        self.color_scheme == other.color_scheme && self.accent_color == other.accent_color
    }
}

impl vstd::std_specs::cmp::PartialEqSpecImpl for SettingsConfig {
    open spec fn obeys_eq_spec() -> bool {
        true
    }

    open spec fn eq_spec(&self, other: &SettingsConfig) -> bool {
        self@ == other@
    }
}

impl Eq for SettingsConfig {
}

impl Default for SettingsConfig {
    /// The `default` scheme with a white accent.
    fn default() -> (r: SettingsConfig)
        ensures
            r@ == default_settings(),
    {
        SettingsConfig {
            color_scheme: String::from_str("default"),
            accent_color: AccentColor { red: 255, green: 255, blue: 255 },
        }
    }
}

impl SettingsConfig {
    /// Wire code of the scheme: 0 for `default`, 1 for `dark`, 2 for `light`.
    pub fn get_color_scheme(&self) -> (r: u32)
        ensures
            r == scheme_code(self.color_scheme@),
    {
        if same_text(self.color_scheme.as_str(), "dark") {
            DARK_COLOR
        } else if same_text(self.color_scheme.as_str(), "light") {
            LIGHT_COLOR
        } else {
            DEFAULT_COLOR
        }
    }

    pub fn get_accent_color(&self) -> (r: AccentColor)
        ensures
            r == self.accent_color,
    {
        self.accent_color
    }

    /// Decodes a document. An unrecognized scheme name falls back to
    /// `default`, a malformed color to white.
    pub fn from_config(conf: &Config) -> (r: SettingsConfig)
        ensures
            r@ == decoded_settings(conf.scheme_text(), conf.accent_text()),
    {
        let name = conf.get_color_scheme();
        let scheme = if same_text(name, "dark") || same_text(name, "light") || same_text(name, "default") {
            String::from_str(name)
        } else {
            String::from_str("default")
        };
        SettingsConfig { color_scheme: scheme, accent_color: AccentColor::from_string(conf.get_accent_color()) }
    }
}

/// What one attempt to read the settings file came to.
pub enum LoadOutcome {
    /// The file was read and held this text.
    Read(String),
    /// There was no file; a default document takes its place.
    Absent,
    /// Any other failure to read it.
    Failed,
}

/// The settings decoded from the text of a settings document.
pub open spec fn document_settings(text: Seq<char>) -> (Seq<char>, AccentColor) {
    decoded_settings(
        or_default(toml_top_string(text, "color_scheme"@), default_scheme_name()),
        or_default(toml_top_string(text, "accent_color"@), default_accent_text()),
    )
}

/// The settings after a reload from `current`: a read document replaces
/// them wholesale, a missing file gives the defaults, and a failed read keeps
/// what was there.
pub open spec fn reloaded(current: (Seq<char>, AccentColor), outcome: LoadOutcome) -> (Seq<char>, AccentColor) {
    match outcome {
        LoadOutcome::Read(text) => document_settings(text@),
        LoadOutcome::Absent => default_settings(),
        LoadOutcome::Failed => current,
    }
}

/// Builds the next settings snapshot from the current one and the outcome
/// of reading the settings file.
pub fn reload(current: SettingsConfig, outcome: &LoadOutcome) -> (r: SettingsConfig)
    ensures
        r@ == reloaded(current@, *outcome),
{
    match outcome {
        LoadOutcome::Read(text) => SettingsConfig::from_config(&Config::from_toml(text.as_str())),
        LoadOutcome::Absent => SettingsConfig::default(),
        LoadOutcome::Failed => current,
    }
}

/// Reloading with the same outcome a second time changes nothing: the
/// snapshot after two reloads of an unchanged document equals the one after
/// the first.
pub proof fn lemma_reload_idempotent(current: (Seq<char>, AccentColor), outcome: LoadOutcome)
    ensures
        reloaded(reloaded(current, outcome), outcome) == reloaded(current, outcome),
{
}

} // verus!
