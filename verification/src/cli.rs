//! The command line of the runtime, as plain values.

use vstd::prelude::*;

verus! {

/// A parsed command line.
pub struct CLI {
    pub command: Command,
}

/// What the runtime is asked to do.
pub enum Command {
    /// Run a specific script, with the arguments that follow its path.
    Run { file_path: String, args: Vec<String> },
}

/// What `argv` holds for a command line: the program path, then the trailing
/// arguments in order.
pub open spec fn program_argv(cli: CLI) -> Seq<String> {
    match cli.command {
        Command::Run { file_path, args } => seq![file_path] + args@,
    }
}

/// The arguments that the script sees: the path of the script followed by the
/// trailing arguments, in the order given.
pub fn get_program_argv(cli: CLI) -> (argv: Vec<String>)
    ensures
        argv@ == program_argv(cli),
{
    let mut argv: Vec<String> = Vec::new();
    match cli.command {
        Command::Run { file_path, args } => {
            let mut rest = args;
            argv.push(file_path);
            argv.append(&mut rest);
        },
    }
    argv
}

} // verus!
