//! The calls into other crates. What is stated of them here is taken on
//! trust: it is what their documentation says, not something proved.
use vstd::prelude::*;

verus! {

/// The error of the `regex` crate for a pattern that it cannot compile.
#[verifier::external_type_specification]
#[verifier::external_body]
pub struct ExRegexError(regex::Error);

/// The error of the `cargo_toml` crate for a text that is no manifest.
#[verifier::external_type_specification]
#[verifier::external_body]
pub struct ExManifestError(cargo_toml::Error);

/// What the `regex` crate finds for `pattern` in `haystack`: `None` where it
/// rejects the pattern, `Some(None)` where the pattern matches nowhere or
/// the group took no part in the first match, and else the text of capture
/// group `group` in the first match.
pub uninterp spec fn regex_capture(pattern: Seq<char>, haystack: Seq<char>, group: nat) -> Option<Option<Seq<char>>>;

/// The package name in a manifest, as the `cargo_toml` crate reads it:
/// `None` where it rejects the text, `Some(None)` where the manifest has no
/// `[package]` table, and else the package's name.
pub uninterp spec fn manifest_package_name(text: Seq<char>) -> Option<Option<Seq<char>>>;

/// Calls `regex::Regex::new` on `pattern` and `Regex::captures` on
/// `haystack`, and copies out what `Captures::get` gives for `group`.
/// Claimed: the answer depends on the three arguments alone, so that it can
/// go by the name `regex_capture`; nothing is said of what the engine
/// matches.
#[verifier::external_body]
pub(crate) fn capture_group(pattern: &str, haystack: &str, group: usize) -> (r: Result<
    Option<String>,
    regex::Error,
>)
    ensures
        regex_capture(pattern@, haystack@, group as nat) == (match r {
            Ok(Some(text)) => Some(Some(text@)),
            Ok(None) => Some(None),
            Err(_) => None,
        }),
{
    let re = regex::Regex::new(pattern)?;
    Ok(re.captures(haystack).and_then(|c| c.get(group)).map(|m| m.as_str().to_string()))
}

/// Calls `cargo_toml::Manifest::from_str` on `text` and hands out the name
/// in its `package` field. Claimed: the answer depends on `text` alone, so
/// that it can go by the name `manifest_package_name`; nothing is said of
/// which texts are manifests.
#[verifier::external_body]
pub(crate) fn package_name(text: &str) -> (r: Result<Option<String>, cargo_toml::Error>)
    ensures
        manifest_package_name(text@) == (match r {
            Ok(Some(name)) => Some(Some(name@)),
            Ok(None) => Some(None),
            Err(_) => None,
        }),
{
    let manifest = cargo_toml::Manifest::from_str(text)?;
    Ok(manifest.package.map(|p| p.name))
}

} // verus!
