//! The description of a process launch that is handed to the host.

use vstd::prelude::*;

verus! {

/// A launch description as a mathematical value: the program's name, its
/// arguments in order, and the environment as pairs of name and value.
pub struct CommandView {
    pub command: Seq<char>,
    pub args: Seq<Seq<char>>,
    pub env: Seq<(Seq<char>, Seq<char>)>,
}

/// How to launch a process: the program, its arguments and the environment
/// variables to set for it. Building one launches nothing.
#[derive(Clone, Debug, PartialEq, Eq)]
pub struct Command {
    /// The program to execute.
    pub command: String,
    /// The arguments to pass to the program, in order.
    pub args: Vec<String>,
    /// The environment variables to set for the program.
    pub env: Vec<(String, String)>,
}

impl View for Command {
    type V = CommandView;

    open spec fn view(&self) -> CommandView {
        CommandView {
            command: self.command@,
            args: self.args.deep_view(),
            env: self.env.deep_view(),
        }
    }
}

} // verus!
