//! Manifest introspection: parse a manifest text as a TOML document and test
//! for the presence of top-level keys. The parsing itself is done by the
//! `toml` crate; this module states what the parse yields and proves the two
//! predicates against that.

use vstd::prelude::*;

verus! {

/// What parsing a text as a TOML document yields: `None` when the text is
/// not valid TOML, otherwise the set of top-level keys of the document.
/// The result of `toml::from_str` depends on the text alone, so the outcome
/// can be given this name.
pub uninterp spec fn toml_top_keys(s: Seq<char>) -> Option<Set<Seq<char>>>;

/// The keys a parsed TOML value answers to: the set of strings for which
/// `toml::Value::get` returns `Some`.
pub uninterp spec fn toml_value_keys(v: toml::Value) -> Set<Seq<char>>;

#[verifier::external_type_specification]
#[verifier::external_body]
pub struct ExTomlValue(toml::Value);

/// Relies on `toml::from_str::<toml::Value>`: it succeeds exactly on valid
/// TOML text, and the value it returns holds the document's top-level keys.
#[verifier::external_body]
fn parse_manifest(s: &str) -> (r: Option<toml::Value>)
    ensures
        r is Some <==> toml_top_keys(s@) is Some,
        r matches Some(v) ==> toml_value_keys(v) == toml_top_keys(s@)->Some_0,
{
    toml::from_str::<toml::Value>(s).ok()
}

/// Relies on `toml::Value::get` with a string index: it returns `Some`
/// exactly when the value is a table that holds the key.
#[verifier::external_body]
fn value_has_key(v: &toml::Value, key: &str) -> (r: bool)
    ensures
        r == toml_value_keys(*v).contains(key@),
{
    v.get(key).is_some()
}

/// The error both predicates return when the manifest text is not valid
/// TOML.
#[derive(Clone, Copy, Debug, PartialEq, Eq, Structural)]
pub struct ParseError;

/// A manifest is a workspace when its top-level keys include `workspace`.
pub open spec fn spec_is_workspace(keys: Set<Seq<char>>) -> bool {
    keys.contains("workspace"@)
}

/// A manifest has dependencies when its top-level keys include
/// `dependencies` or `dev-dependencies`.
pub open spec fn spec_has_dependencies(keys: Set<Seq<char>>) -> bool {
    keys.contains("dependencies"@) || keys.contains("dev-dependencies"@)
}

pub fn is_workspace(manifest: &str) -> (r: Result<bool, ParseError>)
    ensures
        r is Ok <==> toml_top_keys(manifest@) is Some,
        r matches Ok(b) ==> b == spec_is_workspace(toml_top_keys(manifest@)->Some_0),
{
    match parse_manifest(manifest) {
        Some(v) => Ok(value_has_key(&v, "workspace")),
        None => Err(ParseError),
    }
}

pub fn has_dependencies(manifest: &str) -> (r: Result<bool, ParseError>)
    ensures
        r is Ok <==> toml_top_keys(manifest@) is Some,
        r matches Ok(b) ==> b == spec_has_dependencies(toml_top_keys(manifest@)->Some_0),
{
    match parse_manifest(manifest) {
        Some(v) => Ok(
            value_has_key(&v, "dependencies") || value_has_key(&v, "dev-dependencies"),
        ),
        None => Err(ParseError),
    }
}

/// A manifest whose top-level keys include `dependencies` but not
/// `workspace` is not a workspace yet has dependencies.
pub proof fn lemma_dependencies_without_workspace(keys: Set<Seq<char>>)
    requires
        !keys.contains("workspace"@),
        keys.contains("dependencies"@),
    ensures
        !spec_is_workspace(keys),
        spec_has_dependencies(keys),
{
}

} // verus!
