//! Loading the tool's configuration: a TOML document whose one required
//! entry is the bridge username. The file is read by the unverified shell;
//! deciding what its contents mean happens here, with the TOML parsing done
//! by the `toml` crate behind trusted wrappers.

use vstd::prelude::*;

use crate::error::HueError;

verus! {

/// The configuration the tool runs with: the bridge API username.
#[derive(Debug, PartialEq, Eq)]
pub struct Config {
    pub username: String,
}

#[verifier::external_type_specification]
#[verifier::external_body]
#[verifier::reject_recursive_types(K)]
#[verifier::reject_recursive_types(V)]
pub struct ExTomlMap<K, V>(toml::map::Map<K, V>);

#[verifier::external_type_specification]
#[verifier::external_body]
pub struct ExTomlValue(toml::Value);

#[verifier::external_type_specification]
#[verifier::external_body]
pub struct ExTomlDeError(toml::de::Error);

/// Whether `s` is a well-formed TOML document.
pub uninterp spec fn toml_parses(s: Seq<char>) -> bool;

/// The top-level entries of the TOML document `s` whose values are strings,
/// as a map from key to string contents.
pub uninterp spec fn toml_doc_strings(s: Seq<char>) -> Map<Seq<char>, Seq<char>>;

/// The entries of a parsed TOML table whose values are strings.
pub uninterp spec fn table_strings(t: toml::Table) -> Map<Seq<char>, Seq<char>>;

/// The contents of a TOML value when it is a string, `None` otherwise.
pub uninterp spec fn value_string(v: toml::Value) -> Option<Seq<char>>;

/// Relies on `toml::Table`'s `FromStr` impl: parses a TOML document into
/// its top-level table, failing exactly on malformed documents.
#[verifier::external_body]
fn parse_toml(s: &str) -> (r: Result<toml::Table, toml::de::Error>)
    ensures
        r is Ok <==> toml_parses(s@),
        r matches Ok(t) ==> table_strings(t) == toml_doc_strings(s@),
{
    <toml::Table as core::str::FromStr>::from_str(s)
}

/// Relies on `toml::map::Map::get`: returns the value stored under a
/// top-level key, if that key is present.
#[verifier::external_body]
fn table_get<'a>(t: &'a toml::Table, key: &str) -> (r: Option<&'a toml::Value>)
    ensures
        r matches Some(v) ==> (table_strings(*t).contains_key(key@) ==> value_string(*v) == Some(
            table_strings(*t)[key@],
        )),
        r matches Some(v) ==> (!table_strings(*t).contains_key(key@) ==> value_string(*v) is None),
        r is None ==> !table_strings(*t).contains_key(key@),
{
    t.get(key)
}

/// Relies on `toml::Value::as_str`: returns the string contents exactly
/// when the value is a TOML string.
#[verifier::external_body]
fn value_as_str<'a>(v: &'a toml::Value) -> (r: Option<&'a str>)
    ensures
        r matches Some(s) ==> value_string(*v) == Some(s@),
        r is None ==> value_string(*v) is None,
{
    v.as_str()
}

/// Turns the configuration file's contents into a `Config`. `None` stands
/// for an absent file. The load fails when the file is absent, when it is
/// not valid TOML, and when it holds no top-level string entry named
/// `username`; otherwise the configured username is returned.
pub fn load_config(contents: Option<String>) -> (r: Result<Config, HueError>)
    ensures
        contents is None ==> (r matches Err(e) && e == HueError::ConfigFileMissing),
        contents matches Some(s) ==> (!toml_parses(s@) ==> (r matches Err(e) && e
            == HueError::ConfigInvalid)),
        contents matches Some(s) ==> (toml_parses(s@) && !toml_doc_strings(s@).contains_key(
            "username"@,
        ) ==> (r matches Err(e) && e == HueError::ConfigMissingUsername)),
        contents matches Some(s) ==> (toml_parses(s@) && toml_doc_strings(s@).contains_key(
            "username"@,
        ) ==> (r matches Ok(c) && c.username@ == toml_doc_strings(s@)["username"@])),
{
    match contents {
        None => Err(HueError::ConfigFileMissing),
        Some(text) => match parse_toml(text.as_str()) {
            Err(_) => Err(HueError::ConfigInvalid),
            Ok(table) => match table_get(&table, "username") {
                None => Err(HueError::ConfigMissingUsername),
                Some(v) => match value_as_str(v) {
                    None => Err(HueError::ConfigMissingUsername),
                    Some(u) => Ok(Config { username: u.to_owned() }),
                },
            },
        },
    }
}

} // verus!
