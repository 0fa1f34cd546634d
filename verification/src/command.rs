//! System commands as values: what the manager asks the system to run, and
//! what came back. The manager's decisions are made on these values; running
//! a command is left to the caller.
use crate::text::views;
use vstd::prelude::*;

verus! {

/// A program and its arguments.
pub struct Command {
    pub program: String,
    pub args: Vec<String>,
}

/// The model of a command.
pub struct CommandView {
    pub program: Seq<char>,
    pub args: Seq<Seq<char>>,
}

impl View for Command {
    type V = CommandView;

    open spec fn view(&self) -> CommandView {
        CommandView { program: self.program@, args: views(self.args@) }
    }
}

/// What came back from a command: whether it exited successfully and its
/// output (decoded as UTF-8, invalid bytes replaced), or why it could not be
/// started.
pub enum Outcome {
    Ran { success: bool, stdout: String, stderr: String },
    SpawnFailed(String),
}

impl Command {
    /// A command from a program name and arguments.
    pub fn new(program: &str, args: Vec<String>) -> (c: Self)
        ensures
            c@ == (CommandView { program: program@, args: views(args@) }),
    {
        Command { program: program.to_owned(), args }
    }
}

/// A list of arguments from two texts.
pub fn args2(a: &str, b: &str) -> (v: Vec<String>)
    ensures
        views(v@) == seq![a@, b@],
{
    let mut v: Vec<String> = Vec::new();
    v.push(a.to_owned());
    v.push(b.to_owned());
    assert(views(v@) =~= seq![a@, b@]);
    v
}

/// A list of arguments from three texts.
pub fn args3(a: &str, b: &str, c: &str) -> (v: Vec<String>)
    ensures
        views(v@) == seq![a@, b@, c@],
{
    let mut v: Vec<String> = Vec::new();
    v.push(a.to_owned());
    v.push(b.to_owned());
    v.push(c.to_owned());
    assert(views(v@) =~= seq![a@, b@, c@]);
    v
}

} // verus!
