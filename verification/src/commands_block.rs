//! A described group of commands run in sequence: the first failing command
//! aborts the rest, and its classified failure is handed back unchanged.

use vstd::prelude::*;

use crate::command::SingleCommand;
use crate::command::SingleCommandError;

verus! {

/// A sequence of commands under one description, executed in order.
#[derive(Debug)]
pub struct CommandBlock {
    /// The commands, run in order.
    commands: Vec<SingleCommand>,
    /// What this block of commands is for.
    description: String,
}

impl CommandBlock {
    pub closed spec fn spec_commands(&self) -> Seq<SingleCommand> {
        self.commands@
    }

    pub closed spec fn spec_description(&self) -> Seq<char> {
        self.description@
    }

    pub fn new(commands: Vec<SingleCommand>, description: String) -> (r: CommandBlock)
        ensures
            r.spec_commands() == commands@,
            r.spec_description() == description@,
    {
        CommandBlock { commands, description }
    }

    pub fn description(&self) -> (r: &String)
        ensures
            r@ == self.spec_description(),
    {
        &self.description
    }

    /// Runs every command of the block in order; the first failure is
    /// returned and the commands after it are not run. A construction-time
    /// error can never come out of a run.
    pub fn execute(&self) -> (r: Result<(), SingleCommandError>)
        ensures
            !(r matches Err(SingleCommandError::SudoEmbedded)),
            r matches Err(SingleCommandError::NonZeroExit(code)) ==> code != 0,
    {
        let mut i: usize = 0;
        while i < self.commands.len()
            invariant
                i <= self.commands.len(),
            decreases self.commands.len() - i,
        {
            match self.commands[i].run() {
                Ok(()) => {},
                Err(err) => {
                    return Err(err);
                },
            }
            i = i + 1;
        }
        Ok(())
    }
}

} // verus!
