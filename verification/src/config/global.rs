//! The user's settings.
use crate::config::{config_dir, platform_home_dir, settings_dir};
use crate::error::{DevError, ErrorKind};
use crate::path::{join, joined};
use crate::process::optional_text;
use crate::text::{concat2, concat3, is_word, lowered, same_text, to_chars};
use vstd::prelude::*;

verus! {

/// The shell that completions are written for.
#[derive(Debug, Clone, Copy, PartialEq, Eq, Structural)]
pub enum Shell {
    Zsh,
    Bash,
    Fish,
}

impl Default for Shell {
    fn default() -> (s: Shell)
        ensures
            s == Shell::Zsh,
    {
        Shell::Zsh
    }
}

/// The name of a shell, in lower case.
pub open spec fn shell_name(shell: Shell) -> Seq<char> {
    match shell {
        Shell::Zsh => "zsh"@,
        Shell::Bash => "bash"@,
        Shell::Fish => "fish"@,
    }
}

impl Shell {
    /// The name of the shell, in lower case.
    pub fn name(&self) -> (r: &'static str)
        ensures
            r@ == shell_name(*self),
    {
        match self {
            Shell::Zsh => "zsh",
            Shell::Bash => "bash",
            Shell::Fish => "fish",
        }
    }
}

/// The user's settings.
#[derive(Debug, Clone, PartialEq, Eq)]
pub struct GlobalConfig {
    /// The command of the editor to open worktrees with.
    pub editor: String,
    /// The directory under which new projects are made.
    pub dev_path: String,
    /// Whether to install dependencies when switching.
    pub auto_install_deps: bool,
    /// Whether to point to the devbox shell when opening a project.
    pub auto_devbox: bool,
    /// The shell to write completions for.
    pub shell: Shell,
}

/// The settings as plain values.
pub struct GlobalConfigView {
    pub editor: Seq<char>,
    pub dev_path: Seq<char>,
    pub auto_install_deps: bool,
    pub auto_devbox: bool,
    pub shell: Shell,
}

impl View for GlobalConfig {
    type V = GlobalConfigView;

    open spec fn view(&self) -> GlobalConfigView {
        GlobalConfigView {
            editor: self.editor@,
            dev_path: self.dev_path@,
            auto_install_deps: self.auto_install_deps,
            auto_devbox: self.auto_devbox,
            shell: self.shell,
        }
    }
}

/// The default directory for projects: `Development` in the home
/// directory, or in `~` where no home directory is known.
pub open spec fn dev_path_under(home: Option<Seq<char>>) -> Seq<char> {
    match home {
        Some(h) => joined(h, "Development"@),
        None => joined("~"@, "Development"@),
    }
}

/// The settings that hold before the user changes any, for a given home
/// directory.
pub open spec fn default_settings(home: Option<Seq<char>>) -> GlobalConfigView {
    GlobalConfigView {
        editor: "zed"@,
        dev_path: dev_path_under(home),
        auto_install_deps: true,
        auto_devbox: true,
        shell: Shell::Zsh,
    }
}

/// The editor used where none is set.
pub fn default_editor() -> (r: String)
    ensures
        r@ == "zed"@,
{
    "zed".to_owned()
}

/// The value of the switches that are on where not set.
pub fn default_true() -> (r: bool)
    ensures
        r,
{
    true
}

/// The default directory for projects, given the home directory.
pub fn dev_path_in(home: Option<String>) -> (r: String)
    ensures
        r@ == dev_path_under(optional_text(home)),
{
    match home {
        Some(h) => join(h.as_str(), "Development"),
        None => join("~", "Development"),
    }
}

/// The default directory for projects on this machine.
pub fn default_dev_path() -> (r: String)
    ensures
        exists|home: Option<Seq<char>>| r@ == dev_path_under(home),
{
    let home = platform_home_dir();
    let ghost h = optional_text(home);
    let r = dev_path_in(home);
    assert(r@ == dev_path_under(h));
    r
}

impl Default for GlobalConfig {
    /// The settings that hold before the user changes any.
    fn default() -> (c: GlobalConfig)
        ensures
            exists|home: Option<Seq<char>>| c@ == default_settings(home),
    {
        let dev_path = default_dev_path();
        let ghost home = choose|home: Option<Seq<char>>| dev_path@ == dev_path_under(home);
        let c = GlobalConfig {
            editor: default_editor(),
            dev_path,
            auto_install_deps: default_true(),
            auto_devbox: default_true(),
            shell: Shell::Zsh,
        };
        assert(c@ == default_settings(home));
        c
    }
}

/// The file that holds the settings, given what the platform says of the
/// user's configuration and home directories: `config.json` in the settings
/// directory.
pub open spec fn settings_file(config: Option<Seq<char>>, home: Option<Seq<char>>) -> Option<
    Seq<char>,
> {
    match settings_dir(config, home) {
        Some(dir) => Some(joined(dir, "config.json"@)),
        None => None,
    }
}

/// The names of the settings.
pub open spec fn is_setting(key: Seq<char>) -> bool {
    key == "editor"@ || key == "dev_path"@ || key == "auto_install_deps"@ || key == "auto_devbox"@
        || key == "shell"@
}

/// How a switch is written.
pub open spec fn switch_text(on: bool) -> Seq<char> {
    if on {
        "true"@
    } else {
        "false"@
    }
}

/// The switch that a text writes: exactly `true` or `false`.
pub open spec fn switch_of(text: Seq<char>) -> Option<bool> {
    if text == "true"@ {
        Some(true)
    } else if text == "false"@ {
        Some(false)
    } else {
        None
    }
}

/// The shell that a text names, whatever the case of its letters.
pub open spec fn shell_of(text: Seq<char>) -> Option<Shell> {
    if lowered(text) == "zsh"@ {
        Some(Shell::Zsh)
    } else if lowered(text) == "bash"@ {
        Some(Shell::Bash)
    } else if lowered(text) == "fish"@ {
        Some(Shell::Fish)
    } else {
        None
    }
}

/// The value of a setting as text; `None` for a name that is no setting.
pub open spec fn setting_text(c: GlobalConfigView, key: Seq<char>) -> Option<Seq<char>> {
    if key == "editor"@ {
        Some(c.editor)
    } else if key == "dev_path"@ {
        Some(c.dev_path)
    } else if key == "auto_install_deps"@ {
        Some(switch_text(c.auto_install_deps))
    } else if key == "auto_devbox"@ {
        Some(switch_text(c.auto_devbox))
    } else if key == "shell"@ {
        Some(shell_name(c.shell))
    } else {
        None
    }
}

/// The settings after `key` is set to `value`, or the reason why it
/// cannot be: a switch that is neither `true` nor `false`, an unknown
/// shell, an unknown name.
pub open spec fn setting_changed(c: GlobalConfigView, key: Seq<char>, value: Seq<char>) -> Result<
    GlobalConfigView,
    Seq<char>,
> {
    if key == "editor"@ {
        Ok(GlobalConfigView { editor: value, ..c })
    } else if key == "dev_path"@ {
        Ok(GlobalConfigView { dev_path: value, ..c })
    } else if key == "auto_install_deps"@ {
        match switch_of(value) {
            Some(on) => Ok(GlobalConfigView { auto_install_deps: on, ..c }),
            None => Err("Invalid boolean value"@),
        }
    } else if key == "auto_devbox"@ {
        match switch_of(value) {
            Some(on) => Ok(GlobalConfigView { auto_devbox: on, ..c }),
            None => Err("Invalid boolean value"@),
        }
    } else if key == "shell"@ {
        match shell_of(value) {
            Some(shell) => Ok(GlobalConfigView { shell, ..c }),
            None => Err("Unknown shell: "@ + value + ". Valid options: zsh, bash, fish"@),
        }
    } else {
        Err("Unknown config key: "@ + key)
    }
}

/// Reads a switch: exactly `true` or `false`.
fn parse_switch(text: &str) -> (r: Option<bool>)
    ensures
        r == switch_of(text@),
{
    if same_text(text, "true") {
        Some(true)
    } else if same_text(text, "false") {
        Some(false)
    } else {
        None
    }
}

/// Reads the name of a shell, whatever the case of its letters.
fn parse_shell(text: &str) -> (r: Option<Shell>)
    ensures
        r == shell_of(text@),
{
    let t = to_chars(text);
    if is_word(t.as_slice(), "zsh") {
        Some(Shell::Zsh)
    } else if is_word(t.as_slice(), "bash") {
        Some(Shell::Bash)
    } else if is_word(t.as_slice(), "fish") {
        Some(Shell::Fish)
    } else {
        None
    }
}

impl GlobalConfig {
    /// The file that holds the settings, in the given settings directory.
    pub fn config_path_in(config_dir: &str) -> (r: String)
        ensures
            r@ == joined(config_dir@, "config.json"@),
    {
        join(config_dir, "config.json")
    }

    /// The file that holds the settings on this machine, or none where the
    /// platform names no directory for them.
    pub fn config_path() -> (r: Option<String>)
        ensures
            exists|config: Option<Seq<char>>, home: Option<Seq<char>>|
                optional_text(r) == #[trigger] settings_file(config, home),
    {
        let dir = config_dir();
        let ghost pair = choose|config: Option<Seq<char>>, home: Option<Seq<char>>|
            optional_text(dir) == settings_dir(config, home);
        let r = match dir {
            Some(d) => Some(GlobalConfig::config_path_in(d.as_str())),
            None => None,
        };
        assert(optional_text(r) == settings_file(pair.0, pair.1));
        r
    }

    /// The value of the setting named `key`, as text; `None` for a name
    /// that is no setting.
    pub fn get(&self, key: &str) -> (r: Option<String>)
        ensures
            optional_text(r) == setting_text(self@, key@),
    {
        if same_text(key, "editor") {
            Some(self.editor.clone())
        } else if same_text(key, "dev_path") {
            Some(self.dev_path.clone())
        } else if same_text(key, "auto_install_deps") {
            Some(
                if self.auto_install_deps {
                    "true".to_owned()
                } else {
                    "false".to_owned()
                },
            )
        } else if same_text(key, "auto_devbox") {
            Some(
                if self.auto_devbox {
                    "true".to_owned()
                } else {
                    "false".to_owned()
                },
            )
        } else if same_text(key, "shell") {
            Some(self.shell.name().to_owned())
        } else {
            None
        }
    }

    /// Sets the setting named `key` to `value`. On failure the settings
    /// stay as they were and the error says why.
    pub fn set(&mut self, key: &str, value: &str) -> (r: Result<(), DevError>)
        ensures
            match r {
                Ok(_) => setting_changed(old(self)@, key@, value@) == Ok::<
                    GlobalConfigView,
                    Seq<char>,
                >(final(self)@),
                Err(e) => {
                    &&& final(self)@ == old(self)@
                    &&& setting_changed(old(self)@, key@, value@) == Err::<
                        GlobalConfigView,
                        Seq<char>,
                    >(e@.1)
                    &&& e@.0 == ErrorKind::ConfigError
                },
            },
    {
        if same_text(key, "editor") {
            self.editor = value.to_owned();
        } else if same_text(key, "dev_path") {
            self.dev_path = value.to_owned();
        } else if same_text(key, "auto_install_deps") {
            match parse_switch(value) {
                Some(on) => {
                    self.auto_install_deps = on;
                },
                None => {
                    return Err(DevError::ConfigError("Invalid boolean value".to_owned()));
                },
            }
        } else if same_text(key, "auto_devbox") {
            match parse_switch(value) {
                Some(on) => {
                    self.auto_devbox = on;
                },
                None => {
                    return Err(DevError::ConfigError("Invalid boolean value".to_owned()));
                },
            }
        } else if same_text(key, "shell") {
            match parse_shell(value) {
                Some(shell) => {
                    self.shell = shell;
                },
                None => {
                    return Err(
                        DevError::ConfigError(
                            concat3("Unknown shell: ", value, ". Valid options: zsh, bash, fish"),
                        ),
                    );
                },
            }
        } else {
            return Err(DevError::ConfigError(concat2("Unknown config key: ", key)));
        }
        Ok(())
    }
}

} // verus!
