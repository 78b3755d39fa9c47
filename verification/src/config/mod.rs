//! Where the tool keeps its settings, and the settings themselves.
pub mod global;
pub mod project;

use crate::path::{join, joined};
use crate::process::optional_text;
use crate::text::texts;
use vstd::prelude::*;

verus! {

/// Trusted: `dirs::config_dir`, the user's configuration directory as the
/// platform and the environment give it, or none. Nothing is claimed of
/// the result. A path that is not valid UTF-8 is converted lossily.
#[verifier::external_body]
fn platform_config_dir() -> (r: Option<String>) {
    match dirs::config_dir() {
        Some(p) => Some(p.to_string_lossy().into_owned()),
        None => None,
    }
}

/// Trusted: `dirs::home_dir`, the user's home directory as the platform
/// and the environment give it, or none. Nothing is claimed of the result.
/// A path that is not valid UTF-8 is converted lossily.
#[verifier::external_body]
pub(crate) fn platform_home_dir() -> (r: Option<String>) {
    match dirs::home_dir() {
        Some(p) => Some(p.to_string_lossy().into_owned()),
        None => None,
    }
}

/// The tool's settings directory: `dev` under the user's configuration
/// directory, or under `.config` in the home directory where the platform
/// names no configuration directory. With neither there is none.
pub open spec fn settings_dir(config: Option<Seq<char>>, home: Option<Seq<char>>) -> Option<
    Seq<char>,
> {
    match config {
        Some(c) => Some(joined(c, "dev"@)),
        None => match home {
            Some(h) => Some(joined(joined(h, ".config"@), "dev"@)),
            None => None,
        },
    }
}

/// The tool's settings directory, given what the platform says of the
/// user's configuration and home directories.
pub fn config_dir_from(config: Option<String>, home: Option<String>) -> (r: Option<String>)
    ensures
        optional_text(r) == settings_dir(optional_text(config), optional_text(home)),
{
    match config {
        Some(c) => Some(join(c.as_str(), "dev")),
        None => match home {
            Some(h) => {
                let base = join(h.as_str(), ".config");
                Some(join(base.as_str(), "dev"))
            },
            None => None,
        },
    }
}

/// The tool's settings directory on this machine, or none where the
/// platform names neither a configuration nor a home directory.
pub fn config_dir() -> (r: Option<String>)
    ensures
        exists|config: Option<Seq<char>>, home: Option<Seq<char>>|
            optional_text(r) == settings_dir(config, home),
{
    let config = platform_config_dir();
    let home = platform_home_dir();
    let ghost c = optional_text(config);
    let ghost h = optional_text(home);
    let r = config_dir_from(config, home);
    assert(optional_text(r) == settings_dir(c, h));
    r
}

/// The directories that must exist before settings are written, in the
/// order in which to create them: the settings directory and `projects`
/// in it.
pub fn ensure_config_dirs(config_dir: &str) -> (dirs: Vec<String>)
    ensures
        texts(dirs@) == seq![config_dir@, joined(config_dir@, "projects"@)],
{
    let mut dirs: Vec<String> = Vec::new();
    dirs.push(config_dir.to_owned());
    dirs.push(join(config_dir, "projects"));
    assert(texts(dirs@) =~= seq![config_dir@, joined(config_dir@, "projects"@)]);
    dirs
}

} // verus!
