use vstd::prelude::*;

verus! {

/// What `toml` reads as the string value of the top-level `key` of the
/// document `text`: `None` when the text is no TOML document, or the key is
/// absent, or its value is no string.
pub uninterp spec fn toml_top_string(text: Seq<char>, key: Seq<char>) -> Option<Seq<char>>;

/// Relies on `toml::from_str` (into a `toml::Table`), `Map::get` and
/// `Value::as_str`: the string stored at a top-level key of a document.
#[verifier::external_body]
fn read_top_string(text: &str, key: &str) -> (r: Option<String>)
    ensures
        r.is_some() == toml_top_string(text@, key@).is_some(),
        r.is_some() ==> r.unwrap()@ == toml_top_string(text@, key@).unwrap(),
{
    let table: toml::Table = match toml::from_str(text) {
        Ok(t) => t,
        Err(_) => return None,
    };
    match table.get(key).and_then(toml::Value::as_str) {
        Some(s) => Some(s.to_string()),
        None => None,
    }
}

pub open spec fn default_scheme_name() -> Seq<char> {
    "default"@
}

pub open spec fn default_accent_text() -> Seq<char> {
    "#ffffff"@
}

pub open spec fn or_default(v: Option<Seq<char>>, d: Seq<char>) -> Seq<char> {
    match v {
        Some(s) => s,
        None => d,
    }
}

/// The on-disk settings document: a scheme name and a CSS color, as text.
#[derive(Clone, Debug, PartialEq, Eq)]
pub struct Config {
    color_scheme: String,
    accent_color: String,
}

impl Config {
    pub closed spec fn scheme_text(&self) -> Seq<char> {
        self.color_scheme@
    }

    pub closed spec fn accent_text(&self) -> Seq<char> {
        self.accent_color@
    }

    pub fn new(color_scheme: String, accent_color: String) -> (r: Config)
        ensures
            r.scheme_text() == color_scheme@,
            r.accent_text() == accent_color@,
    {
        Config { color_scheme, accent_color }
    }

    pub fn get_color_scheme(&self) -> (r: &str)
        ensures
            r@ == self.scheme_text(),
    {
        self.color_scheme.as_str()
    }

    pub fn get_accent_color(&self) -> (r: &str)
        ensures
            r@ == self.accent_text(),
    {
        self.accent_color.as_str()
    }

    /// Reads the document's two fields from TOML text. A field that is
    /// missing, or not a string, or a text that is no TOML document at all,
    /// gives the default for that field.
    pub fn from_toml(text: &str) -> (r: Config)
        ensures
            r.scheme_text() == or_default(toml_top_string(text@, "color_scheme"@), default_scheme_name()),
            r.accent_text() == or_default(toml_top_string(text@, "accent_color"@), default_accent_text()),
    {
        let scheme = match read_top_string(text, "color_scheme") {
            Some(s) => s,
            None => String::from_str("default"),
        };
        let accent = match read_top_string(text, "accent_color") {
            Some(s) => s,
            None => String::from_str("#ffffff"),
        };
        Config { color_scheme: scheme, accent_color: accent }
    }
}

impl Default for Config {
    fn default() -> (r: Config)
        ensures
            r.scheme_text() == default_scheme_name(),
            r.accent_text() == default_accent_text(),
    {
        Config { color_scheme: String::from_str("default"), accent_color: String::from_str("#ffffff") }
    }
}

} // verus!
