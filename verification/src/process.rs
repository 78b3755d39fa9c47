//! What the library exchanges with whoever runs programs for it: the command
//! line that it wants run, and what the finished program reported.
use crate::text::texts;
use vstd::prelude::*;

verus! {

/// What a program reported when it ended.
#[derive(Clone, Debug, PartialEq, Eq)]
pub struct CommandOutput {
    /// Whether the program ended with exit status zero.
    pub success: bool,
    /// What it wrote to standard output.
    pub stdout: String,
    /// What it wrote to standard error.
    pub stderr: String,
}

/// A program to run: its name, its arguments and the directory to run it in.
#[derive(Clone, Debug, PartialEq, Eq)]
pub struct CommandLine {
    pub program: String,
    pub args: Vec<String>,
    /// `None` runs the program in the caller's working directory.
    pub dir: Option<String>,
}

/// The text of an optional string.
pub open spec fn optional_text(s: Option<String>) -> Option<Seq<char>> {
    match s {
        Some(t) => Some(t@),
        None => None,
    }
}

/// The text of an optional string slice.
pub open spec fn optional_str(s: Option<&str>) -> Option<Seq<char>> {
    match s {
        Some(t) => Some(t@),
        None => None,
    }
}

/// A command line as plain texts.
pub struct CommandLineView {
    pub program: Seq<char>,
    pub args: Seq<Seq<char>>,
    pub dir: Option<Seq<char>>,
}

impl View for CommandLine {
    type V = CommandLineView;

    open spec fn view(&self) -> CommandLineView {
        CommandLineView {
            program: self.program@,
            args: texts(self.args@),
            dir: optional_text(self.dir),
        }
    }
}

/// `git` with the given arguments, run in `dir`.
pub open spec fn git(args: Seq<Seq<char>>, dir: Option<Seq<char>>) -> CommandLineView {
    CommandLineView { program: "git"@, args, dir }
}

/// Whether a program ran and ended with exit status zero. A program that
/// could not be started did not succeed.
pub open spec fn succeeded(result: Option<&CommandOutput>) -> bool {
    match result {
        Some(out) => out.success,
        None => false,
    }
}

impl CommandLine {
    /// A `git` invocation.
    pub fn git(args: Vec<String>, dir: Option<String>) -> (c: CommandLine)
        ensures
            c@ == git(texts(args@), optional_text(dir)),
    {
        CommandLine { program: "git".to_owned(), args, dir }
    }
}

/// Whether the program ran and ended with exit status zero.
pub fn command_succeeded(result: Option<&CommandOutput>) -> (r: bool)
    ensures
        r == succeeded(result),
{
    match result {
        Some(out) => out.success,
        None => false,
    }
}

/// A list of owned strings with the given texts.
pub fn strings1(a: &str) -> (v: Vec<String>)
    ensures
        texts(v@) == seq![a@],
{
    let mut v: Vec<String> = Vec::new();
    v.push(a.to_owned());
    assert(texts(v@) =~= seq![a@]);
    v
}

/// A list of owned strings with the given texts.
pub fn strings2(a: &str, b: &str) -> (v: Vec<String>)
    ensures
        texts(v@) == seq![a@, b@],
{
    let mut v: Vec<String> = Vec::new();
    v.push(a.to_owned());
    v.push(b.to_owned());
    assert(texts(v@) =~= seq![a@, b@]);
    v
}

/// A list of owned strings with the given texts.
pub fn strings3(a: &str, b: &str, c: &str) -> (v: Vec<String>)
    ensures
        texts(v@) == seq![a@, b@, c@],
{
    let mut v: Vec<String> = Vec::new();
    v.push(a.to_owned());
    v.push(b.to_owned());
    v.push(c.to_owned());
    assert(texts(v@) =~= seq![a@, b@, c@]);
    v
}

/// A list of owned strings with the given texts.
pub fn strings4(a: &str, b: &str, c: &str, d: &str) -> (v: Vec<String>)
    ensures
        texts(v@) == seq![a@, b@, c@, d@],
{
    let mut v: Vec<String> = Vec::new();
    v.push(a.to_owned());
    v.push(b.to_owned());
    v.push(c.to_owned());
    v.push(d.to_owned());
    assert(texts(v@) =~= seq![a@, b@, c@, d@]);
    v
}

} // verus!
