//! The synchronous runtime: one script, evaluated in one go, with every
//! failure of the evaluation ending the process.

use vstd::prelude::*;
use crate::console::{LogRecord, Stream};
use crate::vm::{Exit, EXIT_FAILURE};

verus! {

/// The ways in which evaluating a script fails.
#[derive(Debug)]
pub enum ExecutionError {
    /// A value could not be carried between host and script.
    Conversion(String),
    /// The engine failed on its own account.
    Internal(String),
    /// The script threw and nothing caught it.
    Exception(String),
    /// The engine ran out of memory.
    OutOfMemory,
    /// Any other failure; it is not reported.
    Other,
}

/// The line that a failed evaluation is reported with, if it is reported.
pub open spec fn failure_line(err: ExecutionError) -> Option<Seq<char>> {
    match err {
        ExecutionError::Conversion(detail) => Some("ConversionError: "@ + detail@ + "\n"@),
        ExecutionError::Internal(detail) => Some("InternalError: "@ + detail@ + "\n"@),
        ExecutionError::Exception(thrown) => Some("UncaughtException: "@ + thrown@ + "\n"@),
        ExecutionError::OutOfMemory => Some("OutOfMemory"@ + "\n"@),
        ExecutionError::Other => None,
    }
}

/// The synchronous runtime.
pub struct Runtime {}

impl Runtime {
    /// Builds the runtime.
    pub fn new() -> Runtime {
        Runtime {  }
    }

    /// Takes the result of evaluating the script. A script that ran to its end
    /// lets the process go on; a failure ends it with exit code 1, after a
    /// line on the diagnostic stream that names the kind of failure.
    pub fn run(&self, evaluated: Result<(), ExecutionError>) -> (exit: Option<Exit>)
        ensures
            exit is Some <==> evaluated is Err,
            exit matches Some(e) ==> {
                &&& e.code == EXIT_FAILURE
                &&& match failure_line(evaluated->Err_0) {
                    Some(line) => e.record matches Some(r) && r.stream == Stream::Stderr
                        && r.line@ == line,
                    None => e.record is None,
                }
            },
    {
        match evaluated {
            Ok(_) => None,
            Err(err) => {
                let record = match err {
                    ExecutionError::Conversion(detail) => Some(
                        report("ConversionError: ", detail.as_str()),
                    ),
                    ExecutionError::Internal(detail) => Some(
                        report("InternalError: ", detail.as_str()),
                    ),
                    ExecutionError::Exception(thrown) => Some(
                        report("UncaughtException: ", thrown.as_str()),
                    ),
                    ExecutionError::OutOfMemory => {
                        proof {
                            reveal_strlit("");
                            assert("OutOfMemory"@ + ""@ =~= "OutOfMemory"@);
                        }
                        Some(report("OutOfMemory", ""))
                    },
                    ExecutionError::Other => None,
                };
                Some(Exit { record, code: EXIT_FAILURE })
            },
        }
    }
}

/// A line on the diagnostic stream: a label and what it is about.
fn report(label: &str, detail: &str) -> (record: LogRecord)
    ensures
        record.stream == Stream::Stderr,
        record.line@ == label@ + detail@ + "\n"@,
{
    let mut line = String::from_str(label);
    line.append(detail);
    line.append("\n");
    LogRecord { stream: Stream::Stderr, line }
}

} // verus!
