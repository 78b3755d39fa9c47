//! Devbox: the environment file of a project and the shell that it gives.
use crate::error::{DevError, ErrorKind};
use crate::package_manager::ProjectFiles;
use crate::path::{join, joined};
use crate::process::{
    command_succeeded, strings1, succeeded, CommandLine, CommandLineView, CommandOutput,
};
use crate::text::{concat2, concat3, push_str, texts, to_text};
use vstd::prelude::*;

verus! {

/// The probe that tells whether devbox is installed.
pub fn is_devbox_installed_command() -> (c: CommandLine)
    ensures
        c@ == (CommandLineView { program: "which"@, args: seq!["devbox"@], dir: None }),
{
    CommandLine { program: "which".to_owned(), args: strings1("devbox"), dir: None }
}

/// Whether the probe found devbox. A probe that could not run found none.
pub fn is_devbox_installed(probe: Option<&CommandOutput>) -> (r: bool)
    ensures
        r == succeeded(probe),
{
    command_succeeded(probe)
}

/// Whether the project directory holds a `devbox.json`.
pub fn has_devbox_config(files: &ProjectFiles) -> (r: bool)
    ensures
        r == files.devbox_json,
{
    files.devbox_json
}

/// The environment file of the project in `dir`.
pub fn devbox_config_path(dir: &str) -> (r: String)
    ensures
        r@ == joined(dir@, "devbox.json"@),
{
    join(dir, "devbox.json")
}

/// The packages as they stand in the environment file: each in double
/// quotes, with a comma and a line break between two.
pub open spec fn quoted_list(packages: Seq<Seq<char>>) -> Seq<char>
    decreases packages.len(),
{
    if packages.len() == 0 {
        Seq::empty()
    } else if packages.len() == 1 {
        "\""@ + packages[0] + "\""@
    } else {
        quoted_list(packages.drop_last()) + ",\n    "@ + "\""@ + packages.last() + "\""@
    }
}

/// What the environment file says before the packages.
pub open spec fn config_head() -> Seq<char> {
    "{\n  \"$schema\": \"https://raw.githubusercontent.com/jetify-com/devbox/0.13.0/.schema/devbox.schema.json\",\n  \"packages\": [\n    "@
}

/// What the environment file says after the packages.
pub open spec fn config_tail() -> Seq<char> {
    "\n  ],\n  \"shell\": {\n    \"init_hook\": [\n      \"echo 'Welcome to devbox!'\"\n    ],\n    \"scripts\": {\n      \"test\": \"echo \\\"No tests configured\\\"\"\n    }\n  }\n}"@
}

/// The text of a new environment file with the given packages.
pub open spec fn config_text(packages: Seq<Seq<char>>) -> Seq<char> {
    config_head() + quoted_list(packages) + config_tail()
}

/// The text to write as the project's environment file, or none where the
/// file exists already: an existing file is left as it is.
pub fn init_devbox(packages: &Vec<String>, exists: bool) -> (r: Option<String>)
    ensures
        match r {
            Some(text) => !exists && text@ == config_text(texts(packages@)),
            None => exists,
        },
{
    if exists {
        return None;
    }
    let mut out: Vec<char> = Vec::new();
    push_str(
        &mut out,
        "{\n  \"$schema\": \"https://raw.githubusercontent.com/jetify-com/devbox/0.13.0/.schema/devbox.schema.json\",\n  \"packages\": [\n    ",
    );
    let ghost head = out@;
    let mut i: usize = 0;
    assert(texts(packages@).take(0) == Seq::<Seq<char>>::empty());
    assert(head + Seq::<char>::empty() == head);
    while i < packages.len()
        invariant
            i <= packages.len(),
            head == config_head(),
            out@ == head + quoted_list(texts(packages@).take(i as int)),
        decreases packages.len() - i,
    {
        let ghost before = texts(packages@).take(i as int);
        let ghost upto = texts(packages@).take(i + 1);
        assert(upto.drop_last() == before);
        assert(upto.last() == packages@[i as int]@);
        if i > 0 {
            push_str(&mut out, ",\n    ");
        }
        push_str(&mut out, "\"");
        push_str(&mut out, packages[i].as_str());
        push_str(&mut out, "\"");
        assert(out@ =~= head + quoted_list(upto)) by {
            if i == 0 {
                assert(upto[0] == packages@[i as int]@);
                assert(quoted_list(before) == Seq::<char>::empty());
            }
        }
        i += 1;
    }
    assert(texts(packages@).take(packages.len() as int) == texts(packages@));
    push_str(
        &mut out,
        "\n  ],\n  \"shell\": {\n    \"init_hook\": [\n      \"echo 'Welcome to devbox!'\"\n    ],\n    \"scripts\": {\n      \"test\": \"echo \\\"No tests configured\\\"\"\n    }\n  }\n}",
    );
    Some(to_text(out.as_slice()))
}

/// The shell command line that enters the devbox shell of the project at
/// `path`.
pub fn get_devbox_shell_command(path: &str) -> (r: String)
    ensures
        r@ == "cd "@ + path@ + " && devbox shell"@,
{
    concat3("cd ", path, " && devbox shell")
}

/// What to tell the user about entering the devbox shell.
#[derive(Debug, Clone, PartialEq, Eq)]
pub struct DevboxInstructions {
    /// The sentence that says what to do.
    pub headline: String,
    /// The command line to type.
    pub command: String,
}

/// What to tell the user about entering the devbox shell of the project
/// at `path`: inside a devbox shell only to go to the project, outside to
/// enter the shell there.
pub fn devbox_instructions(path: &str, in_devbox_shell: bool) -> (r: DevboxInstructions)
    ensures
        r.headline@ == if in_devbox_shell {
            "Already in devbox shell. Navigate to the project:"@
        } else {
            "Enter devbox shell:"@
        },
        r.command@ == if in_devbox_shell {
            "cd "@ + path@
        } else {
            "cd "@ + path@ + " && devbox shell"@
        },
{
    if in_devbox_shell {
        DevboxInstructions {
            headline: "Already in devbox shell. Navigate to the project:".to_owned(),
            command: concat2("cd ", path),
        }
    } else {
        DevboxInstructions {
            headline: "Enter devbox shell:".to_owned(),
            command: get_devbox_shell_command(path),
        }
    }
}

/// Decides on entering the devbox shell of the project at `path`: the
/// command that replaces the tool by the shell, or why there is none.
/// Inside a devbox shell no other can be entered; without an environment
/// file there is no shell to enter. The first of the two that holds is
/// reported.
pub fn exec_devbox_shell(path: &str, in_devbox_shell: bool, files: &ProjectFiles) -> (r: Result<
    CommandLine,
    DevError,
>)
    ensures
        match r {
            Ok(c) => {
                &&& !in_devbox_shell
                &&& files.devbox_json
                &&& c@ == (CommandLineView {
                    program: "devbox"@,
                    args: seq!["shell"@],
                    dir: Some(path@),
                })
            },
            Err(e) => if in_devbox_shell {
                e@ == (
                    ErrorKind::DevboxError,
                    "Already in a devbox shell. Cannot nest devbox shells."@,
                )
            } else {
                !files.devbox_json && e@ == (
                    ErrorKind::DevboxError,
                    "No devbox.json found at "@ + path@,
                )
            },
        },
{
    if in_devbox_shell {
        return Err(
            DevError::DevboxError(
                "Already in a devbox shell. Cannot nest devbox shells.".to_owned(),
            ),
        );
    }
    if !has_devbox_config(files) {
        return Err(DevError::DevboxError(concat2("No devbox.json found at ", path)));
    }
    Ok(
        CommandLine {
            program: "devbox".to_owned(),
            args: strings1("shell"),
            dir: Some(path.to_owned()),
        },
    )
}

/// The error for a devbox shell that could not be started, with the
/// reason that the system gave.
pub fn exec_devbox_shell_failed(reason: &str) -> (e: DevError)
    ensures
        e@ == (ErrorKind::DevboxError, "Failed to launch devbox shell: "@ + reason@),
{
    DevError::DevboxError(concat2("Failed to launch devbox shell: ", reason))
}

} // verus!
