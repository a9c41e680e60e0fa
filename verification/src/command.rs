//! The command line of the service: no argument serves, `cleanup` runs a
//! cleanup.
use vstd::prelude::*;

use crate::text::same_text;

verus! {

broadcast use vstd::string::group_string_axioms;

/// What the process is asked to do.
#[derive(Clone, Copy, Debug, PartialEq, Eq)]
pub enum AppCommand {
    Serve,
    Cleanup,
}

/// The first argument names no command (or `cleanup` is followed by more).
#[derive(Debug, Clone, PartialEq, Eq)]
pub struct UnknownCommand {
    pub command: String,
}

/// The command for the arguments after the program name.
pub fn parse_command(args: &Vec<String>) -> (r: Result<AppCommand, UnknownCommand>)
    ensures
        args.len() == 0 ==> r == Ok::<AppCommand, UnknownCommand>(AppCommand::Serve),
        args.len() == 1 && args[0]@ == "cleanup"@ ==> r == Ok::<AppCommand, UnknownCommand>(
            AppCommand::Cleanup,
        ),
        args.len() >= 1 && !(args.len() == 1 && args[0]@ == "cleanup"@) ==> (r matches Err(e)
            && e.command@ == args[0]@),
{
    if args.len() == 0 {
        return Ok(AppCommand::Serve);
    }
    let first = &args[0];
    if args.len() == 1 && same_text(first.as_str(), "cleanup") {
        Ok(AppCommand::Cleanup)
    } else {
        Err(UnknownCommand { command: first.clone() })
    }
}

impl UnknownCommand {
    /// The message of this error.
    pub fn message(&self) -> (m: String)
        ensures
            m@ == "unknown command `"@ + self.command@
                + "`; supported commands are `cleanup` or no command"@,
    {
        let mut m = String::new();
        m.append("unknown command `");
        m.append(self.command.as_str());
        m.append("`; supported commands are `cleanup` or no command");
        m
    }
}

} // verus!
