//! The mining address in the node's configuration text.

use vstd::prelude::*;
use vstd::string::StringExecFns;

verus! {

/// The pattern of a `miner_address` setting together with its quoted value.
pub const MINER_ADDRESS_PATTERN: &'static str = "miner_address\\s*=\\s*\"[^\"]*\"";

/// The error type of the regex crate.
#[verifier::external_type_specification]
#[verifier::external_body]
pub struct ExRegexError(regex::Error);

/// Whether the regex crate compiles `pattern`, with its default limits.
pub uninterp spec fn regex_compiles(pattern: Seq<char>) -> bool;

/// `text` after the regex crate replaced the first match of `pattern` in it
/// by `replacement`, in which `$` refers to the groups of the match.
pub uninterp spec fn regex_replaced_first(
    pattern: Seq<char>,
    text: Seq<char>,
    replacement: Seq<char>,
) -> Seq<char>;

/// Compiles `pattern` with `Regex::new` of the regex crate and, where that
/// succeeds, replaces the first match in `text` with `Regex::replace`. The
/// contract only gives names to what the two calls return: whether the
/// pattern compiles, and the text after the replacement.
#[verifier::external_body]
fn regex_replace_first(pattern: &str, text: &str, replacement: &str) -> (replaced: Result<
    String,
    regex::Error,
>)
    ensures
        replaced is Ok <==> regex_compiles(pattern@),
        replaced matches Ok(out) ==> out@ == regex_replaced_first(pattern@, text@, replacement@),
{
    let compiled = regex::Regex::new(pattern)?;
    Ok(compiled.replace(text, replacement).into_owned())
}

/// The message of an error of the regex crate, as its `Display` writes it.
#[verifier::external_body]
fn regex_error_text(error: &regex::Error) -> (text: String) {
    error.to_string()
}

/// Whether `needle` occurs in `text`.
pub open spec fn occurs_in(needle: Seq<char>, text: Seq<char>) -> bool {
    exists|at: int|
        0 <= at <= text.len() - needle.len() && #[trigger] text.subrange(
            at,
            at + needle.len(),
        ) == needle
}

/// `text` with every occurrence of `from` replaced by `to`, from left to
/// right, none overlapping another.
pub open spec fn replaced_all(text: Seq<char>, from: Seq<char>, to: Seq<char>) -> Seq<char>
    recommends
        from.len() > 0,
    decreases text.len(),
{
    if from.len() == 0 || text.len() < from.len() {
        text
    } else if text.subrange(0, from.len() as int) == from {
        to + replaced_all(text.subrange(from.len() as int, text.len() as int), from, to)
    } else {
        seq![text[0]] + replaced_all(text.drop_first(), from, to)
    }
}

/// `str::contains` with a string as the pattern: whether the pattern matches
/// a part of the text.
#[verifier::external_body]
fn str_contains(text: &str, needle: &str) -> (found: bool)
    ensures
        found == occurs_in(needle@, text@),
{
    text.contains(needle)
}

/// `str::replace` with a string that is not empty as the pattern: all
/// matches, which do not overlap, are replaced.
#[verifier::external_body]
fn str_replace(text: &str, from: &str, to: &str) -> (out: String)
    requires
        from@.len() > 0,
    ensures
        out@ == replaced_all(text@, from@, to@),
{
    text.replace(from, to)
}

/// Why a configuration could not be updated.
#[derive(Debug)]
pub enum ConfigError {
    /// The pattern of the setting did not compile; the message says why.
    Pattern(String),
}

/// The setting that names `address` as the miner's address.
pub open spec fn miner_setting(address: Seq<char>) -> Seq<char> {
    "miner_address = \""@ + address + "\""@
}

/// The configuration with `address` as the miner's address. Where the text
/// mentions `miner_address`, the first setting of it is replaced. Otherwise
/// the setting is put behind every `[mining]` heading, and where there is no
/// such heading a `[mining]` section with it is added at the end. `None`
/// where the pattern of the setting does not compile.
pub open spec fn updated_config(config: Seq<char>, address: Seq<char>) -> Option<Seq<char>> {
    if occurs_in("miner_address"@, config) {
        if regex_compiles(MINER_ADDRESS_PATTERN@) {
            Some(regex_replaced_first(MINER_ADDRESS_PATTERN@, config, miner_setting(address)))
        } else {
            None
        }
    } else if occurs_in("[mining]"@, config) {
        Some(replaced_all(config, "[mining]"@, "[mining]\n"@ + miner_setting(address)))
    } else {
        Some(config + "\n\n[mining]\n"@ + miner_setting(address) + "\n"@)
    }
}

/// Sets the miner's address in the text of a node configuration: see
/// `updated_config`.
pub fn update_zebra_config(config: &str, address: &str) -> (updated: Result<String, ConfigError>)
    ensures
        updated is Ok <==> updated_config(config@, address@) is Some,
        updated matches Ok(text) ==> updated_config(config@, address@) == Some(text@),
{
    let setting = String::from_str("miner_address = \"").concat(address).concat("\"");
    if str_contains(config, "miner_address") {
        match regex_replace_first(MINER_ADDRESS_PATTERN, config, setting.as_str()) {
            Ok(text) => Ok(text),
            Err(error) => Err(ConfigError::Pattern(regex_error_text(&error))),
        }
    } else if str_contains(config, "[mining]") {
        proof {
            reveal_strlit("[mining]");
        }
        let section = String::from_str("[mining]\n").concat(setting.as_str());
        Ok(str_replace(config, "[mining]", section.as_str()))
    } else {
        Ok(
            String::from_str(config).concat("\n\n[mining]\n").concat(setting.as_str()).concat(
                "\n",
            ),
        )
    }
}

} // verus!
