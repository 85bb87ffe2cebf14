//! Decoding of the configuration that the discovery process prints as TOML.
use vstd::prelude::*;
use crate::error::LaunchError;

verus! {

#[verifier::external_type_specification]
#[verifier::external_body]
#[verifier::reject_recursive_types(K)]
#[verifier::reject_recursive_types(V)]
pub struct ExTomlMap<K, V>(toml::map::Map<K, V>);

#[verifier::external_type_specification]
#[verifier::external_body]
pub struct ExTomlValue(toml::Value);

#[verifier::external_type_specification]
#[verifier::external_body]
pub struct ExTomlError(toml::de::Error);

/// The top-level table that toml reads from a document, each value seen as
/// the string it is, or `None` where it is not a string; `None` where the
/// document is not valid TOML.
pub uninterp spec fn toml_top_level(s: Seq<char>) -> Option<Map<Seq<char>, Option<Seq<char>>>>;

/// The entries of a toml table, each value seen as the string it is, or
/// `None` where it is not a string.
pub uninterp spec fn table_strings(t: toml::map::Map<String, toml::Value>) -> Map<
    Seq<char>,
    Option<Seq<char>>,
>;

/// Relies on `FromStr for toml::Table` (toml::from_str): parses a document
/// into its top-level table, or fails.
#[verifier::external_body]
fn parse_table(s: &str) -> (r: Result<toml::map::Map<String, toml::Value>, toml::de::Error>)
    ensures
        r is Ok <==> toml_top_level(s@) is Some,
        r matches Ok(t) ==> toml_top_level(s@) == Some(table_strings(t)),
{
    s.parse::<toml::Table>()
}

/// Relies on toml::map::Map::get and toml::Value::as_str: the string stored
/// under `key`, if the key is present and its value is a string.
#[verifier::external_body]
fn table_get_str(t: &toml::map::Map<String, toml::Value>, key: &str) -> (r: Option<String>)
    ensures
        r matches Some(v) ==> table_strings(*t).contains_key(key@) && table_strings(*t)[key@]
            == Some(v@),
        r is None ==> !table_strings(*t).contains_key(key@) || table_strings(*t)[key@] is None,
{
    t.get(key).and_then(|v| v.as_str()).map(|v| v.to_owned())
}

/// Where the launched runtime finds its system image, depot and load path.
#[derive(Debug)]
pub struct Config {
    pub image: String,
    pub depot: String,
    pub load_path: String,
}

/// The mathematical value of a `Config`.
pub struct ConfigView {
    pub image: Seq<char>,
    pub depot: Seq<char>,
    pub load_path: Seq<char>,
}

impl View for Config {
    type V = ConfigView;

    open spec fn view(&self) -> ConfigView {
        ConfigView { image: self.image@, depot: self.depot@, load_path: self.load_path@ }
    }
}

/// The string under `key`, if present and a string.
pub open spec fn string_entry(m: Map<Seq<char>, Option<Seq<char>>>, key: Seq<char>) -> Option<
    Seq<char>,
> {
    if m.contains_key(key) {
        m[key]
    } else {
        None
    }
}

/// The configuration held by a top-level table: all three keys must be strings.
pub open spec fn config_of_table(m: Map<Seq<char>, Option<Seq<char>>>) -> Option<ConfigView> {
    match (string_entry(m, "image"@), string_entry(m, "depot"@), string_entry(m, "load_path"@)) {
        (Some(image), Some(depot), Some(load_path)) => Some(
            ConfigView { image, depot, load_path },
        ),
        _ => None,
    }
}

/// The configuration that a discovery payload resolves to, if any.
pub open spec fn resolve_payload(payload: Seq<char>) -> Option<ConfigView> {
    match toml_top_level(payload) {
        Some(m) => config_of_table(m),
        None => None,
    }
}

/// Decodes the discovery output into a configuration. Fails with
/// `ConfigParse`, carrying the payload as given, exactly when the payload is
/// not TOML or lacks one of the three string keys.
pub fn parse_config(payload: &str) -> (r: Result<Config, LaunchError>)
    ensures
        r matches Ok(c) ==> resolve_payload(payload@) == Some(c@),
        r matches Err(e) ==> resolve_payload(payload@) is None && (e matches LaunchError::ConfigParse {
            payload: p,
        } && p@ == payload@),
{
    let table = match parse_table(payload) {
        Ok(t) => t,
        Err(_) => {
            return Err(LaunchError::ConfigParse { payload: payload.to_owned() });
        },
    };
    match config_from_table(&table) {
        Some(config) => Ok(config),
        None => Err(LaunchError::ConfigParse { payload: payload.to_owned() }),
    }
}

/// The configuration held by a parsed top-level table, if its `image`,
/// `depot` and `load_path` entries are all strings.
pub fn config_from_table(table: &toml::map::Map<String, toml::Value>) -> (r: Option<Config>)
    ensures
        r matches Some(c) ==> config_of_table(table_strings(*table)) == Some(c@),
        r is None ==> config_of_table(table_strings(*table)) is None,
{
    let image = table_get_str(table, "image");
    let depot = table_get_str(table, "depot");
    let load_path = table_get_str(table, "load_path");
    match (image, depot, load_path) {
        (Some(image), Some(depot), Some(load_path)) => Some(Config { image, depot, load_path }),
        _ => None,
    }
}

} // verus!
