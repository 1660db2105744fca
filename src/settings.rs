use vstd::prelude::*;

use crate::config::{document_settings, is_scheme_name, css_rgba8, scheme_code, AccentColor, SettingsConfig};
use crate::toml_config::toml_top_string;
use crate::text::same_text;

verus! {

/// The one settings namespace the portal serves.
pub open spec fn appearance_namespace() -> Seq<char> {
    "org.freedesktop.appearance"@
}

/// Key of the color scheme.
pub open spec fn scheme_key() -> Seq<char> {
    "color-scheme"@
}

/// Key of the accent color.
pub open spec fn accent_key() -> Seq<char> {
    "accent-color"@
}

/// A settings value as handed to callers.
#[derive(Clone, Copy, Debug, PartialEq, Eq, Structural)]
pub enum SettingValue {
    /// The scheme's wire code: 0 default, 1 dark, 2 light.
    ColorScheme(u32),
    /// The accent color.
    AccentColor(AccentColor),
}

/// Why a settings read was refused.
#[derive(Clone, Copy, Debug, PartialEq, Eq, Structural)]
pub enum SettingsError {
    /// The namespace is not the appearance namespace.
    NoSuchNamespace,
    /// The key is none of the two known keys.
    NoSuchKey,
}

/// One key and its value, as `read_all` returns them.
#[derive(Clone, Debug)]
pub struct SettingEntry {
    pub key: String,
    pub value: SettingValue,
}

/// One change notification: namespace, key and the new value.
#[derive(Clone, Debug)]
pub struct SettingChange {
    pub namespace: String,
    pub key: String,
    pub value: SettingValue,
}

pub open spec fn entries_view(v: Seq<SettingEntry>) -> Seq<(Seq<char>, SettingValue)> {
    v.map_values(|e: SettingEntry| (e.key@, e.value))
}

pub open spec fn changes_view(v: Seq<SettingChange>) -> Seq<(Seq<char>, Seq<char>, SettingValue)> {
    v.map_values(|c: SettingChange| (c.namespace@, c.key@, c.value))
}

/// The value of the color scheme in a snapshot.
pub open spec fn scheme_value(s: (Seq<char>, AccentColor)) -> SettingValue {
    SettingValue::ColorScheme(scheme_code(s.0))
}

/// The value of the accent color in a snapshot.
pub open spec fn accent_value(s: (Seq<char>, AccentColor)) -> SettingValue {
    SettingValue::AccentColor(s.1)
}

/// What reading one key of a snapshot gives.
pub open spec fn read_one_result(s: (Seq<char>, AccentColor), namespace: Seq<char>, key: Seq<char>) -> Result<SettingValue, SettingsError> {
    if namespace != appearance_namespace() {
        Err(SettingsError::NoSuchNamespace)
    } else if key == scheme_key() {
        Ok(scheme_value(s))
    } else if key == accent_key() {
        Ok(accent_value(s))
    } else {
        Err(SettingsError::NoSuchKey)
    }
}

/// Both keys with their values, all taken from the one snapshot `s`.
pub open spec fn snapshot_entries(s: (Seq<char>, AccentColor)) -> Seq<(Seq<char>, SettingValue)> {
    seq![(scheme_key(), scheme_value(s)), (accent_key(), accent_value(s))]
}

/// What reading every key of a snapshot gives.
pub open spec fn read_all_result(s: (Seq<char>, AccentColor), namespace: Seq<char>) -> Result<Seq<(Seq<char>, SettingValue)>, SettingsError> {
    if namespace != appearance_namespace() {
        Err(SettingsError::NoSuchNamespace)
    } else {
        Ok(snapshot_entries(s))
    }
}

pub open spec fn read_all_view(r: Result<Vec<SettingEntry>, SettingsError>) -> Result<Seq<(Seq<char>, SettingValue)>, SettingsError> {
    match r {
        Ok(v) => Ok(entries_view(v@)),
        Err(e) => Err(e),
    }
}

/// The notifications of one reload that produced `s`: the scheme first, the
/// accent color second.
pub open spec fn snapshot_changes(s: (Seq<char>, AccentColor)) -> Seq<(Seq<char>, Seq<char>, SettingValue)> {
    seq![
        (appearance_namespace(), scheme_key(), scheme_value(s)),
        (appearance_namespace(), accent_key(), accent_value(s)),
    ]
}

/// The settings interface: reads of the current snapshot.
pub struct Settings;

impl Settings {
    /// The interface version reported to callers.
    pub fn version(&self) -> (r: u32)
        ensures
            r == 1,
    {
        1
    }

    /// The value of `key` in `namespace`, read from the snapshot `config`.
    pub fn read_one(&self, config: &SettingsConfig, namespace: &str, key: &str) -> (r: Result<SettingValue, SettingsError>)
        ensures
            r == read_one_result(config@, namespace@, key@),
    {
        if !same_text(namespace, "org.freedesktop.appearance") {
            return Err(SettingsError::NoSuchNamespace);
        }
        if same_text(key, "color-scheme") {
            Ok(SettingValue::ColorScheme(config.get_color_scheme()))
        } else if same_text(key, "accent-color") {
            Ok(SettingValue::AccentColor(config.get_accent_color()))
        } else {
            Err(SettingsError::NoSuchKey)
        }
    }

    /// Every key of `namespace` with its value, all from the one snapshot
    /// `config`.
    pub fn read_all(&self, config: &SettingsConfig, namespace: &str) -> (r: Result<Vec<SettingEntry>, SettingsError>)
        ensures
            read_all_view(r) == read_all_result(config@, namespace@),
    {
        if !same_text(namespace, "org.freedesktop.appearance") {
            return Err(SettingsError::NoSuchNamespace);
        }
        let mut out: Vec<SettingEntry> = Vec::new();
        out.push(SettingEntry { key: String::from_str("color-scheme"), value: SettingValue::ColorScheme(config.get_color_scheme()) });
        out.push(SettingEntry { key: String::from_str("accent-color"), value: SettingValue::AccentColor(config.get_accent_color()) });
        assert(entries_view(out@) =~= snapshot_entries(config@));
        Ok(out)
    }
}

/// The notifications to broadcast after a reload produced `config`: one for
/// the scheme, then one for the accent color, whether or not either changed.
pub fn change_signals(config: &SettingsConfig) -> (r: Vec<SettingChange>)
    ensures
        changes_view(r@) == snapshot_changes(config@),
{
    let mut out: Vec<SettingChange> = Vec::new();
    out.push(SettingChange {
        namespace: String::from_str("org.freedesktop.appearance"),
        key: String::from_str("color-scheme"),
        value: SettingValue::ColorScheme(config.get_color_scheme()),
    });
    out.push(SettingChange {
        namespace: String::from_str("org.freedesktop.appearance"),
        key: String::from_str("accent-color"),
        value: SettingValue::AccentColor(config.get_accent_color()),
    });
    assert(changes_view(out@) =~= snapshot_changes(config@));
    out
}

/// A namespace other than the appearance namespace is refused by both
/// reads, whatever the key and the snapshot.
pub proof fn lemma_foreign_namespace_rejected(s: (Seq<char>, AccentColor), namespace: Seq<char>, key: Seq<char>)
    requires
        namespace != appearance_namespace(),
    ensures
        read_one_result(s, namespace, key) == Err::<SettingValue, SettingsError>(SettingsError::NoSuchNamespace),
        read_all_result(s, namespace) == Err::<Seq<(Seq<char>, SettingValue)>, SettingsError>(SettingsError::NoSuchNamespace),
{
}

/// In the appearance namespace, a key other than the two known keys is
/// refused as an unknown key.
pub proof fn lemma_unknown_key_rejected(s: (Seq<char>, AccentColor), key: Seq<char>)
    requires
        key != scheme_key(),
        key != accent_key(),
    ensures
        read_one_result(s, appearance_namespace(), key) == Err::<SettingValue, SettingsError>(SettingsError::NoSuchKey),
{
}

/// Every value that one `read_all` hands out comes from the one snapshot it
/// read: a result agrees with a snapshot on the scheme and on the accent
/// color together, never on one of them alone.
pub proof fn lemma_read_all_one_snapshot(s: (Seq<char>, AccentColor), t: (Seq<char>, AccentColor))
    ensures
        read_all_result(s, appearance_namespace()) is Ok,
        ({
            let e = read_all_result(s, appearance_namespace()).unwrap();
            e.len() == 2 && e[0] == (scheme_key(), scheme_value(s)) && e[1] == (accent_key(), accent_value(s))
        }),
        read_all_result(s, appearance_namespace()) == read_all_result(t, appearance_namespace()) ==> (
            scheme_value(s) == scheme_value(t) && accent_value(s) == accent_value(t)),
{
    let es = read_all_result(s, appearance_namespace()).unwrap();
    let et = read_all_result(t, appearance_namespace()).unwrap();
    if read_all_result(s, appearance_namespace()) == read_all_result(t, appearance_namespace()) {
        assert(es[0] == et[0]);
        assert(es[1] == et[1]);
    }
}

/// After a document whose scheme is a known name and whose accent color is
/// a CSS color is loaded, `read_all` gives that scheme's code and that
/// color's channels.
pub proof fn lemma_read_all_after_load(
    text: Seq<char>,
    scheme: Seq<char>,
    accent: Seq<char>,
    red: u8,
    green: u8,
    blue: u8,
    alpha: u8,
)
    requires
        toml_top_string(text, "color_scheme"@) == Some(scheme),
        toml_top_string(text, "accent_color"@) == Some(accent),
        is_scheme_name(scheme),
        css_rgba8(accent) == Some((red, green, blue, alpha)),
    ensures
        read_all_result(document_settings(text), appearance_namespace()) == Ok::<Seq<(Seq<char>, SettingValue)>, SettingsError>(seq![
            (scheme_key(), SettingValue::ColorScheme(scheme_code(scheme))),
            (accent_key(), SettingValue::AccentColor(AccentColor { red, green, blue })),
        ]),
{
}

} // verus!
