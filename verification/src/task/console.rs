use vstd::prelude::*;

verus! {

/// What the debug console does with a finished input line.
#[derive(Debug, Clone, Copy, PartialEq, Eq, Structural)]
pub enum DebugCommand {
    /// An empty line: only the prompt is shown again.
    Empty,
    /// `help`: list the commands.
    Help,
    /// `exit`: leave the emulator.
    Exit,
    /// Any other line: report an unknown command.
    Unknown,
}

/// The characters of the command `help`.
pub open spec fn help_chars() -> Seq<char> {
    seq!['h', 'e', 'l', 'p']
}

/// The characters of the command `exit`.
pub open spec fn exit_chars() -> Seq<char> {
    seq!['e', 'x', 'i', 't']
}

/// The command an input line stands for.
pub open spec fn command_of(line: Seq<char>) -> DebugCommand {
    if line.len() == 0 {
        DebugCommand::Empty
    } else if line == help_chars() {
        DebugCommand::Help
    } else if line == exit_chars() {
        DebugCommand::Exit
    } else {
        DebugCommand::Unknown
    }
}

/// Decides what the debug console does with the input line `command`: nothing but a new
/// prompt for an empty line, the help text for `help`, leaving the emulator for `exit`,
/// and an error for anything else. Lines are matched exactly, without trimming.
pub fn debug_command(command: &String) -> (r: DebugCommand)
    ensures
        r == command_of(command@),
{
    if command.as_str().is_empty() {
        return DebugCommand::Empty;
    }
    let help = "help".to_owned();
    let exit = "exit".to_owned();
    proof {
        reveal_strlit("help");
        reveal_strlit("exit");
        assert(help@ =~= help_chars());
        assert(exit@ =~= exit_chars());
    }
    if *command == help {
        DebugCommand::Help
    } else if *command == exit {
        DebugCommand::Exit
    } else {
        DebugCommand::Unknown
    }
}

} // verus!
