//! The extension itself: a marker without state that names the launch of the
//! Iris language server.

use vstd::prelude::*;
use crate::command::{Command, CommandView};

verus! {

/// Names the language server that the host is about to start.
#[derive(Clone, Debug, PartialEq, Eq)]
pub struct LanguageServerId(pub String);

/// The workspace for which the host starts the language server.
#[derive(Clone, Debug, PartialEq, Eq)]
pub struct Worktree {
    /// The host's number for the worktree.
    pub id: u64,
    /// The directory at the worktree's root.
    pub root_path: String,
}

/// The launch of the Iris language server: `npx ts-node src/lsp-server.ts
/// --stdio`, with no environment variable set.
pub open spec fn server_launch() -> CommandView {
    CommandView {
        command: "npx"@,
        args: seq!["ts-node"@, "src/lsp-server.ts"@, "--stdio"@],
        env: Seq::empty(),
    }
}

/// The extension for the Iris language. It holds nothing.
#[derive(Clone, Copy, Debug, PartialEq, Eq)]
pub struct IrisExtension;

impl IrisExtension {
    /// Makes the extension. There is nothing to set up, so this cannot fail.
    pub fn new() -> (extension: Self)
        ensures
            extension == IrisExtension,
    {
        IrisExtension
    }

    /// Says how to start the language server. The answer is `server_launch()`
    /// for every server name and every worktree: neither is looked at, no
    /// call fails, and the extension is left as it was.
    pub fn language_server_command(
        &mut self,
        language_server_id: &LanguageServerId,
        worktree: &Worktree,
    ) -> (result: Result<Command, String>)
        ensures
            *final(self) == *old(self),
            result is Ok,
            result->Ok_0@ == server_launch(),
    {
        let command = Command {
            command: "npx".to_string(),
            args: vec![
                "ts-node".to_string(),
                "src/lsp-server.ts".to_string(),
                "--stdio".to_string(),
            ],
            env: Vec::new(),
        };
        proof {
            assert(command@.args =~= server_launch().args);
            assert(command@.env =~= server_launch().env);
        }
        Ok(command)
    }
}

/// The extension has exactly one state: any two values of it are equal, so
/// no call can leave behind something that a later call would see.
pub proof fn lemma_extension_has_one_state(a: IrisExtension, b: IrisExtension)
    ensures
        a == b,
{
}

} // verus!
