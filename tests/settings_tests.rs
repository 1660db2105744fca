use reya_portal::config::{reload, AccentColor, LoadOutcome, SettingsConfig, DARK_COLOR, DEFAULT_COLOR, LIGHT_COLOR};
use reya_portal::settings::{change_signals, SettingValue, Settings, SettingsError};
use reya_portal::toml_config::Config;
use reya_portal::watcher::{apply_reload, next_step, WatchEvent, WatchStep};

const NS: &str = "org.freedesktop.appearance";

fn document(scheme: &str, accent: &str) -> String {
    format!("color_scheme = \"{}\"\naccent_color = \"{}\"\n", scheme, accent)
}

fn loaded(text: &str) -> SettingsConfig {
    reload(SettingsConfig::default(), &LoadOutcome::Read(text.to_string()))
}

fn wire(c: AccentColor) -> [f64; 3] {
    [c.red as f64 / 256.0, c.green as f64 / 256.0, c.blue as f64 / 256.0]
}

#[test]
fn dark_document_reads_back() {
    let config = loaded(&document("dark", "#336699"));
    let s = Settings;
    assert_eq!(s.read_one(&config, NS, "color-scheme"), Ok(SettingValue::ColorScheme(1)));
    let accent = match s.read_one(&config, NS, "accent-color") {
        Ok(SettingValue::AccentColor(c)) => c,
        other => panic!("unexpected {:?}", other),
    };
    assert_eq!(accent, AccentColor { red: 0x33, green: 0x66, blue: 0x99 });
    let w = wire(accent);
    assert!((w[0] - 0.2).abs() < 0.01);
    assert!((w[1] - 0.4).abs() < 0.01);
    assert!((w[2] - 0.6).abs() < 0.01);
    assert_eq!(w[0], 51.0 / 256.0);
}

#[test]
fn read_all_matches_document() {
    let cases = [
        ("default", "#ffffff", DEFAULT_COLOR, (255u8, 255u8, 255u8)),
        ("dark", "#000000", DARK_COLOR, (0, 0, 0)),
        ("light", "#102030", LIGHT_COLOR, (0x10, 0x20, 0x30)),
        ("dark", "red", DARK_COLOR, (255, 0, 0)),
        ("light", "rgb(1, 2, 3)", LIGHT_COLOR, (1, 2, 3)),
    ];
    let s = Settings;
    for (scheme, accent, code, (r, g, b)) in cases {
        let config = loaded(&document(scheme, accent));
        let all = s.read_all(&config, NS).unwrap();
        assert_eq!(all.len(), 2);
        assert_eq!(all[0].key, "color-scheme");
        assert_eq!(all[0].value, SettingValue::ColorScheme(code));
        assert_eq!(all[1].key, "accent-color");
        assert_eq!(all[1].value, SettingValue::AccentColor(AccentColor { red: r, green: g, blue: b }));
    }
}

#[test]
fn reload_twice_is_idempotent() {
    let text = document("light", "#abcdef");
    let first = reload(SettingsConfig::default(), &LoadOutcome::Read(text.clone()));
    let second = reload(first.clone(), &LoadOutcome::Read(text.clone()));
    assert!(first == second);
    assert_eq!(second.color_scheme, "light");
    assert_eq!(second.accent_color, AccentColor { red: 0xab, green: 0xcd, blue: 0xef });
}

#[test]
fn foreign_namespace_is_rejected() {
    let config = loaded(&document("dark", "#336699"));
    let s = Settings;
    for ns in ["", "org.freedesktop.Appearance", "org.freedesktop.appearance.x", "org.gnome.desktop"] {
        assert_eq!(s.read_one(&config, ns, "color-scheme"), Err(SettingsError::NoSuchNamespace));
        assert_eq!(s.read_one(&config, ns, "nope"), Err(SettingsError::NoSuchNamespace));
        assert!(matches!(s.read_all(&config, ns), Err(SettingsError::NoSuchNamespace)));
    }
}

#[test]
fn unknown_key_is_rejected() {
    let config = SettingsConfig::default();
    let s = Settings;
    for key in ["", "color_scheme", "Color-Scheme", "contrast", "accent-color "] {
        assert_eq!(s.read_one(&config, NS, key), Err(SettingsError::NoSuchKey));
    }
}

#[test]
fn read_all_takes_one_snapshot() {
    let before = loaded(&document("dark", "#010203"));
    let after = reload(before.clone(), &LoadOutcome::Read(document("light", "#040506")));
    let s = Settings;
    let a = s.read_all(&before, NS).unwrap();
    let b = s.read_all(&after, NS).unwrap();
    assert_eq!(a[0].value, SettingValue::ColorScheme(1));
    assert_eq!(a[1].value, SettingValue::AccentColor(AccentColor { red: 1, green: 2, blue: 3 }));
    assert_eq!(b[0].value, SettingValue::ColorScheme(2));
    assert_eq!(b[1].value, SettingValue::AccentColor(AccentColor { red: 4, green: 5, blue: 6 }));
}

#[test]
fn edit_emits_scheme_then_accent() {
    let current = loaded(&document("default", "#ffffff"));
    assert_eq!(next_step(WatchEvent::Changed), WatchStep::Reload);
    let (next, signals) = apply_reload(current, &LoadOutcome::Read(document("dark", "#336699")));
    assert_eq!(signals.len(), 2);
    assert_eq!(signals[0].namespace, NS);
    assert_eq!(signals[0].key, "color-scheme");
    assert_eq!(signals[0].value, SettingValue::ColorScheme(1));
    assert_eq!(signals[1].namespace, NS);
    assert_eq!(signals[1].key, "accent-color");
    assert_eq!(signals[1].value, SettingValue::AccentColor(AccentColor { red: 0x33, green: 0x66, blue: 0x99 }));
    assert_eq!(next.color_scheme, "dark");
}

#[test]
fn unchanged_reload_still_signals() {
    let current = loaded(&document("light", "#000000"));
    let signals = change_signals(&current);
    assert_eq!(signals.len(), 2);
    assert_eq!(signals[0].value, SettingValue::ColorScheme(2));
    assert_eq!(signals[1].value, SettingValue::AccentColor(AccentColor { red: 0, green: 0, blue: 0 }));
}

#[test]
fn watch_steps() {
    assert_eq!(next_step(WatchEvent::Changed), WatchStep::Reload);
    assert_eq!(next_step(WatchEvent::Failed), WatchStep::Skip);
    assert_eq!(next_step(WatchEvent::Closed), WatchStep::Stop);
}

#[test]
fn unknown_scheme_falls_back_to_default() {
    let config = loaded(&document("blue", "#336699"));
    assert_eq!(config.color_scheme, "default");
    assert_eq!(config.get_color_scheme(), DEFAULT_COLOR);
    assert_eq!(config.get_accent_color(), AccentColor { red: 0x33, green: 0x66, blue: 0x99 });
}

#[test]
fn malformed_color_falls_back_to_white() {
    let config = loaded(&document("light", "not a color"));
    assert_eq!(config.get_color_scheme(), LIGHT_COLOR);
    assert_eq!(config.get_accent_color(), AccentColor { red: 255, green: 255, blue: 255 });
    assert_eq!(AccentColor::from_string("#12"), AccentColor { red: 255, green: 255, blue: 255 });
}

#[test]
fn accent_from_string_parses_css() {
    assert_eq!(AccentColor::from_string("#336699"), AccentColor { red: 0x33, green: 0x66, blue: 0x99 });
    assert_eq!(AccentColor::from_string("#f00"), AccentColor { red: 255, green: 0, blue: 0 });
    assert_eq!(AccentColor::from_string("blue"), AccentColor { red: 0, green: 0, blue: 255 });
}

#[test]
fn missing_fields_take_defaults() {
    let only_scheme = Config::from_toml("color_scheme = \"dark\"\n");
    assert_eq!(only_scheme.get_color_scheme(), "dark");
    assert_eq!(only_scheme.get_accent_color(), "#ffffff");
    let not_toml = Config::from_toml("this is = = not toml");
    assert_eq!(not_toml.get_color_scheme(), "default");
    assert_eq!(not_toml.get_accent_color(), "#ffffff");
    let not_string = Config::from_toml("color_scheme = 3\naccent_color = \"#000000\"\n");
    assert_eq!(not_string.get_color_scheme(), "default");
    assert_eq!(not_string.get_accent_color(), "#000000");
    let empty = Config::from_toml("");
    assert_eq!(empty, Config::default());
}

#[test]
fn from_toml_reads_field_values() {
    let c = Config::from_toml("accent_color = \"#010203\"\ncolor_scheme = \"light\"\nother = 1\n");
    assert_eq!(c.get_color_scheme(), "light");
    assert_eq!(c.get_accent_color(), "#010203");
}

#[test]
fn default_config_document() {
    let c = Config::default();
    assert_eq!(c.get_color_scheme(), "default");
    assert_eq!(c.get_accent_color(), "#ffffff");
    let d = SettingsConfig::default();
    assert_eq!(d.get_color_scheme(), 0);
    assert_eq!(d.get_accent_color(), AccentColor { red: 255, green: 255, blue: 255 });
}

#[test]
fn absent_file_gives_defaults_and_failure_keeps_current() {
    let current = loaded(&document("dark", "#336699"));
    let kept = reload(current.clone(), &LoadOutcome::Failed);
    assert!(kept == current);
    let fresh = reload(current, &LoadOutcome::Absent);
    assert!(fresh == SettingsConfig::default());
}

#[test]
fn scheme_codes() {
    let mk = |name: &str| SettingsConfig { color_scheme: name.to_string(), accent_color: AccentColor { red: 0, green: 0, blue: 0 } };
    assert_eq!(mk("default").get_color_scheme(), 0);
    assert_eq!(mk("dark").get_color_scheme(), 1);
    assert_eq!(mk("light").get_color_scheme(), 2);
    assert_eq!(mk("other").get_color_scheme(), 0);
    let from_doc = SettingsConfig::from_config(&Config::new("dark".to_string(), "#000".to_string()));
    assert_eq!(from_doc.get_color_scheme(), 1);
    assert_eq!(from_doc.get_accent_color(), AccentColor { red: 0, green: 0, blue: 0 });
}

#[test]
fn settings_version() {
    assert_eq!(Settings.version(), 1);
}

#[test]
fn exact_equality_of_configs() {
    let a = loaded(&document("dark", "#336699"));
    let b = loaded(&document("dark", "#336698"));
    assert!(a != b);
    assert!(a == loaded(&document("dark", "#336699")));
}
