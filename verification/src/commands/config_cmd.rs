//! Showing and changing the settings.
use crate::config::global::{setting_changed, setting_text, GlobalConfig};
use crate::error::{DevError, ErrorKind};
use crate::text::{
    concat2, first_index, lemma_first_index, skip_chars, to_chars, to_text, trim, trimmed,
};
use vstd::prelude::*;
use vstd::slice::*;

verus! {

/// The name and the value that an assignment `name=value` sets, each
/// without the white space around it. The first `=` parts the two; a text
/// without one is no assignment.
pub open spec fn assignment_of(text: Seq<char>) -> Option<(Seq<char>, Seq<char>)> {
    let k = first_index(text, '=');
    if 0 <= k < text.len() {
        Some((trimmed(text.take(k)), trimmed(text.skip(k + 1))))
    } else {
        None
    }
}

/// Reads an assignment `name=value`.
pub fn parse_assignment(text: &str) -> (r: Result<(String, String), DevError>)
    ensures
        match r {
            Ok(pair) => assignment_of(text@) == Some((pair.0@, pair.1@)),
            Err(e) => assignment_of(text@) is None && e@ == (
                ErrorKind::ConfigError,
                "Invalid format. Use: --set key=value"@,
            ),
        },
{
    let chars = to_chars(text);
    let mut k: usize = 0;
    while k < chars.len() && chars[k] != '='
        invariant
            k <= chars.len(),
            forall|j: int| 0 <= j < k ==> chars@[j] != '=',
        decreases chars.len() - k,
    {
        k += 1;
    }
    proof {
        lemma_first_index(chars@, '=', k as int);
    }
    if k >= chars.len() {
        return Err(DevError::ConfigError("Invalid format. Use: --set key=value".to_owned()));
    }
    let key = to_text(trim(slice_subrange(chars.as_slice(), 0, k)));
    let value = to_text(trim(skip_chars(chars.as_slice(), k + 1)));
    assert(chars@.subrange(0, k as int) == chars@.take(k as int));
    Ok((key, value))
}

/// What the command has to tell.
#[derive(Debug, Clone, PartialEq, Eq)]
pub enum ConfigReply {
    /// A setting was changed; the settings are to be saved.
    Changed { key: String, value: String },
    /// The value of the setting that was asked for.
    Value(String),
    /// Nothing was asked for: all settings are shown.
    ShowAll,
}

/// Carries out the command on the loaded settings. An assignment comes
/// before a question; with neither all settings are shown. An assignment
/// that cannot be read or carried out, and a question for a name that is
/// no setting, end the command with a configuration error and leave the
/// settings as they were.
pub fn run(config: &mut GlobalConfig, set: Option<&str>, get: Option<&str>) -> (r: Result<
    ConfigReply,
    DevError,
>)
    ensures
        match set {
            Some(text) => match assignment_of(text@) {
                Some(pair) => match setting_changed(old(config)@, pair.0, pair.1) {
                    Ok(changed) => {
                        &&& final(config)@ == changed
                        &&& r matches Ok(ConfigReply::Changed { key, value })
                        &&& key@ == pair.0
                        &&& value@ == pair.1
                    },
                    Err(why) => {
                        &&& final(config)@ == old(config)@
                        &&& r matches Err(e)
                        &&& e@ == (ErrorKind::ConfigError, why)
                    },
                },
                None => {
                    &&& final(config)@ == old(config)@
                    &&& r matches Err(e)
                    &&& e@ == (ErrorKind::ConfigError, "Invalid format. Use: --set key=value"@)
                },
            },
            None => {
                &&& final(config)@ == old(config)@
                &&& match get {
                    Some(key) => match setting_text(old(config)@, key@) {
                        Some(text) => r matches Ok(ConfigReply::Value(v)) && v@ == text,
                        None => r matches Err(e) && e@ == (
                            ErrorKind::ConfigError,
                            "Unknown config key: "@ + key@,
                        ),
                    },
                    None => r == Ok::<ConfigReply, DevError>(ConfigReply::ShowAll),
                }
            },
        },
{
    match set {
        Some(text) => {
            let (key, value) = match parse_assignment(text) {
                Ok(pair) => pair,
                Err(e) => {
                    return Err(e);
                },
            };
            match config.set(key.as_str(), value.as_str()) {
                Ok(_) => Ok(ConfigReply::Changed { key, value }),
                Err(e) => Err(e),
            }
        },
        None => match get {
            Some(key) => match config.get(key) {
                Some(value) => Ok(ConfigReply::Value(value)),
                None => Err(DevError::ConfigError(concat2("Unknown config key: ", key))),
            },
            None => Ok(ConfigReply::ShowAll),
        },
    }
}

} // verus!
