//! The launch descriptor handed back to the host: the executable to spawn,
//! with an always-empty argument list and environment.

use vstd::prelude::*;

verus! {

/// The command the host should run to start the language server.
#[derive(PartialEq, Eq, Debug)]
pub struct CommandDescriptor {
    pub executable: String,
    pub args: Vec<String>,
    pub env: Vec<(String, String)>,
}

/// Builds the launch descriptor for a resolved executable path. The argument
/// list and the environment are always empty in this system.
pub fn build_command(executable: String) -> (c: CommandDescriptor)
    ensures
        c.executable == executable,
        c.args@.len() == 0,
        c.env@.len() == 0,
{
    CommandDescriptor { executable, args: Vec::new(), env: Vec::new() }
}

} // verus!
