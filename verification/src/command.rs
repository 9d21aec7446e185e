//! What the agent learns from a command that it ran on the host.

use vstd::prelude::*;

verus! {

/// What a command gave that could be started.
#[derive(Clone, Debug)]
pub struct CommandOutput {
    /// Whether the command ended with success.
    pub success: bool,
    /// What it wrote to its standard output, read as text.
    pub stdout: String,
    /// What it wrote to its standard error, read as text.
    pub stderr: String,
}

/// What a run that only has to succeed comes to: nothing on success, else
/// what the command wrote to its standard error, or why it could not be
/// started.
pub open spec fn verdict_of(run: Result<CommandOutput, String>) -> Result<(), Seq<char>> {
    match run {
        Ok(output) => if output.success {
            Ok(())
        } else {
            Err(output.stderr@)
        },
        Err(why) => Err(why@),
    }
}

/// What a run that only has to succeed comes to.
pub fn verdict(run: Result<CommandOutput, String>) -> (result: Result<(), String>)
    ensures
        match result {
            Ok(_) => verdict_of(run) == Ok::<(), Seq<char>>(()),
            Err(text) => verdict_of(run) == Err::<(), Seq<char>>(text@),
        },
{
    match run {
        Ok(output) => if output.success {
            Ok(())
        } else {
            Err(output.stderr)
        },
        Err(why) => Err(why),
    }
}

} // verus!
