//! Editors: which one a name stands for, and how to open a path in it.
use crate::config::global::GlobalConfig;
use crate::error::{DevError, ErrorKind};
use crate::process::{
    command_succeeded, strings1, succeeded, CommandLine, CommandLineView, CommandOutput,
};
use crate::text::{concat2, is_word, lowered, to_chars};
use vstd::prelude::*;

verus! {

/// The editor Zed.
#[derive(Debug, Clone, Copy, PartialEq, Eq, Structural)]
pub struct ZedEditor;

/// The editor Visual Studio Code.
#[derive(Debug, Clone, Copy, PartialEq, Eq, Structural)]
pub struct VSCodeEditor;

/// Any other editor: its command is its name.
#[derive(Debug, Clone, PartialEq, Eq)]
pub struct GenericEditor(pub String);

impl ZedEditor {
    /// The name shown to the user.
    pub fn name(&self) -> (r: &'static str)
        ensures
            r@ == "Zed"@,
    {
        "Zed"
    }

    /// The command that starts the editor.
    pub fn command(&self) -> (r: &'static str)
        ensures
            r@ == "zed"@,
    {
        "zed"
    }
}

impl VSCodeEditor {
    /// The name shown to the user.
    pub fn name(&self) -> (r: &'static str)
        ensures
            r@ == "VSCode"@,
    {
        "VSCode"
    }

    /// The command that starts the editor.
    pub fn command(&self) -> (r: &'static str)
        ensures
            r@ == "code"@,
    {
        "code"
    }
}

impl GenericEditor {
    /// The name shown to the user: the command.
    pub fn name(&self) -> (r: &str)
        ensures
            r@ == self.0@,
    {
        self.0.as_str()
    }

    /// The command that starts the editor.
    pub fn command(&self) -> (r: &str)
        ensures
            r@ == self.0@,
    {
        self.0.as_str()
    }
}

/// An editor that the tool can open a path in.
#[derive(Debug, Clone, PartialEq, Eq)]
pub enum Editor {
    Zed(ZedEditor),
    VSCode(VSCodeEditor),
    Generic(GenericEditor),
}

/// Which editor it is, with the command of one that is not known by name.
pub enum EditorView {
    Zed,
    VSCode,
    Generic(Seq<char>),
}

impl View for Editor {
    type V = EditorView;

    open spec fn view(&self) -> EditorView {
        match self {
            Editor::Zed(_) => EditorView::Zed,
            Editor::VSCode(_) => EditorView::VSCode,
            Editor::Generic(g) => EditorView::Generic(g.0@),
        }
    }
}

impl EditorView {
    /// The name shown to the user.
    pub open spec fn name(self) -> Seq<char> {
        match self {
            EditorView::Zed => "Zed"@,
            EditorView::VSCode => "VSCode"@,
            EditorView::Generic(n) => n,
        }
    }

    /// The command that starts the editor.
    pub open spec fn command(self) -> Seq<char> {
        match self {
            EditorView::Zed => "zed"@,
            EditorView::VSCode => "code"@,
            EditorView::Generic(n) => n,
        }
    }

    /// The probe that tells whether the editor is installed.
    pub open spec fn probe(self) -> CommandLineView {
        CommandLineView { program: "which"@, args: seq![self.command()], dir: None }
    }

    /// The command that opens `path` in the editor.
    pub open spec fn launch(self, path: Seq<char>) -> CommandLineView {
        CommandLineView { program: self.command(), args: seq![path], dir: None }
    }
}

/// The editor that a configured name stands for: `zed` is Zed, `code` and
/// `vscode` are Visual Studio Code, whatever the case of the letters; any
/// other name is the command of an editor of its own.
pub open spec fn editor_for(name: Seq<char>) -> EditorView {
    if lowered(name) == "zed"@ {
        EditorView::Zed
    } else if lowered(name) == "code"@ || lowered(name) == "vscode"@ {
        EditorView::VSCode
    } else {
        EditorView::Generic(name)
    }
}

/// The editor that a configured name stands for.
pub fn get_editor(name: &str) -> (e: Editor)
    ensures
        e@ == editor_for(name@),
{
    let n = to_chars(name);
    if is_word(n.as_slice(), "zed") {
        Editor::Zed(ZedEditor)
    } else if is_word(n.as_slice(), "code") || is_word(n.as_slice(), "vscode") {
        Editor::VSCode(VSCodeEditor)
    } else {
        Editor::Generic(GenericEditor(name.to_owned()))
    }
}

impl Editor {
    /// The name shown to the user.
    pub fn name(&self) -> (r: &str)
        ensures
            r@ == self@.name(),
    {
        match self {
            Editor::Zed(e) => e.name(),
            Editor::VSCode(e) => e.name(),
            Editor::Generic(e) => e.name(),
        }
    }

    /// The command that starts the editor.
    pub fn command(&self) -> (r: &str)
        ensures
            r@ == self@.command(),
    {
        match self {
            Editor::Zed(e) => e.command(),
            Editor::VSCode(e) => e.command(),
            Editor::Generic(e) => e.command(),
        }
    }

    /// The probe that tells whether the editor is installed.
    pub fn is_installed_command(&self) -> (c: CommandLine)
        ensures
            c@ == self@.probe(),
    {
        CommandLine { program: "which".to_owned(), args: strings1(self.command()), dir: None }
    }

    /// Whether the probe found the editor. A probe that could not run
    /// found none.
    pub fn is_installed(&self, probe: Option<&CommandOutput>) -> (r: bool)
        ensures
            r == succeeded(probe),
    {
        command_succeeded(probe)
    }

    /// Decides on opening `path`, given what the probe for the editor
    /// reported: the command that opens the path, or `EditorNotFound` with
    /// the editor's name where the editor is not installed.
    pub fn open(&self, path: &str, probe: Option<&CommandOutput>) -> (r: Result<
        CommandLine,
        DevError,
    >)
        ensures
            match r {
                Ok(c) => succeeded(probe) && c@ == self@.launch(path@),
                Err(e) => !succeeded(probe) && e@ == (ErrorKind::EditorNotFound, self@.name()),
            },
    {
        if !self.is_installed(probe) {
            return Err(DevError::EditorNotFound(self.name().to_owned()));
        }
        Ok(CommandLine { program: self.command().to_owned(), args: strings1(path), dir: None })
    }
}

/// Decides on opening `path` in the configured editor, given what the
/// probe for that editor reported.
pub fn open(path: &str, config: &GlobalConfig, probe: Option<&CommandOutput>) -> (r: Result<
    CommandLine,
    DevError,
>)
    ensures
        match r {
            Ok(c) => succeeded(probe) && c@ == editor_for(config.editor@).launch(path@),
            Err(e) => !succeeded(probe) && e@ == (
                ErrorKind::EditorNotFound,
                editor_for(config.editor@).name(),
            ),
        },
{
    let editor = get_editor(config.editor.as_str());
    editor.open(path, probe)
}

/// The error for an editor that could not be started, with the reason
/// that the system gave.
pub fn open_failed(reason: &str) -> (e: DevError)
    ensures
        e@ == (ErrorKind::Other, "Failed to open editor: "@ + reason@),
{
    DevError::Other(concat2("Failed to open editor: ", reason))
}

} // verus!
