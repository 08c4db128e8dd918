use vstd::prelude::*;

verus! {

/// The string value that parsing `text` as a TOML table yields for the
/// top-level key `key`: `None` when the text does not parse, the key is
/// absent, or its value is not a string.
pub uninterp spec fn toml_str_value(text: Seq<char>, key: Seq<char>) -> Option<Seq<char>>;

/// Relies on `toml`: `str::parse::<toml::Table>` and `Table::get` are
/// functions of the text and the key alone, and `Value::as_str` yields
/// the value exactly when it is a string.
#[verifier::external_body]
fn toml_lookup(text: &str, key: &str) -> (r: Option<String>)
    ensures
        match r {
            Some(v) => toml_str_value(text@, key@) == Some(v@),
            None => toml_str_value(text@, key@) is None,
        },
{
    match text.parse::<toml::Table>() {
        Ok(table) => match table.get(key) {
            Some(value) => value.as_str().map(|s| s.to_owned()),
            None => None,
        },
        Err(_) => None,
    }
}

/// The static configuration a run is built from: the remote API's base
/// URL, the API path segment (with its key), and the category and
/// purity filters. A field is `None` when the configuration text did
/// not provide it.
pub struct Config {
    pub base_url: Option<String>,
    pub api: Option<String>,
    pub categories: Option<String>,
    pub purity: Option<String>,
}

/// Whether an optional runtime string carries exactly the optional
/// value a lookup produced.
pub open spec fn opt_matches(o: Option<String>, v: Option<Seq<char>>) -> bool {
    match o {
        Some(s) => v == Some(s@),
        None => v is None,
    }
}

impl Config {
    /// Reads the four recognized keys out of a configuration text that
    /// holds a TOML key-value table.
    pub fn from_toml(text: &str) -> (c: Config)
        ensures
            opt_matches(c.base_url, toml_str_value(text@, "base_url"@)),
            opt_matches(c.api, toml_str_value(text@, "api"@)),
            opt_matches(c.categories, toml_str_value(text@, "categories"@)),
            opt_matches(c.purity, toml_str_value(text@, "purity"@)),
    {
        Config {
            base_url: toml_lookup(text, "base_url"),
            api: toml_lookup(text, "api"),
            categories: toml_lookup(text, "categories"),
            purity: toml_lookup(text, "purity"),
        }
    }

    /// The name of the first required key this configuration is
    /// missing, if any: the keys are checked in the fixed order
    /// base_url, api, categories, purity.
    pub open spec fn missing_key(self) -> Option<Seq<char>> {
        if self.base_url is None {
            Some("base_url"@)
        } else if self.api is None {
            Some("api"@)
        } else if self.categories is None {
            Some("categories"@)
        } else if self.purity is None {
            Some("purity"@)
        } else {
            None
        }
    }

    /// Whether every required key is present.
    pub open spec fn complete(self) -> bool {
        self.base_url is Some && self.api is Some && self.categories is Some
            && self.purity is Some
    }
}

} // verus!
