//! The life of the runtime host, from construction to teardown.
//!
//! The host owns one engine for its whole life and is the only one to enter
//! it. It is built, gets its console, runs the entry module, and then idles
//! until every asynchronous operation that was begun has come to its end;
//! only then is it torn down. The one way out before that is a fatal exit: an
//! explicit `exit`, or an error that nothing caught.
//!
//! The embedding program drives the engine and reports what happened; what
//! the host does about it is decided here.

use vstd::prelude::*;
use crate::console::{js_stringify, rendered, LogRecord, Stream};
use crate::resolver::{builtin_table, create_module_instances, Registry};
use crate::value::EngineValue;

verus! {

/// The exit code of a run that came to its end.
pub const EXIT_SUCCESS: i32 = 0;

/// The exit code of a run that failed: the script to run was not found, an
/// error was caught by nobody, or the engine could not be built.
pub const EXIT_FAILURE: i32 = 1;

/// An error that reached the host.
#[derive(Debug)]
pub enum CaughtError {
    /// An error of the engine itself, with its text.
    Error(String),
    /// An error object that a script threw.
    Exception(EngineValue),
    /// Any other value that a script threw.
    Value(EngineValue),
}

/// The text that an error is reported with: the engine's own words, or the
/// thrown value as the console renders it.
pub open spec fn error_text(err: CaughtError) -> Seq<char> {
    match err {
        CaughtError::Error(text) => text@,
        CaughtError::Exception(value) => rendered(value),
        CaughtError::Value(value) => rendered(value),
    }
}

/// The line that an error is reported with.
pub open spec fn error_line(err: CaughtError) -> Seq<char> {
    error_text(err) + "\n"@
}

/// The report of an error: its line, on the diagnostic stream.
pub fn print_error(err: &CaughtError) -> (record: LogRecord)
    ensures
        record.stream == Stream::Stderr,
        record.line@ == error_line(*err),
{
    let mut line = match err {
        CaughtError::Error(text) => text.clone(),
        CaughtError::Exception(value) => js_stringify(value),
        CaughtError::Value(value) => js_stringify(value),
    };
    line.append("\n");
    LogRecord { stream: Stream::Stderr, line }
}

/// The end of the process: what is written first, if anything, and the exit
/// code.
#[derive(Debug, PartialEq, Eq)]
pub struct Exit {
    pub record: Option<LogRecord>,
    pub code: i32,
}

impl Exit {
    /// The exit reports `line` on the diagnostic stream and fails.
    pub open spec fn fails_with(self, line: Seq<char>) -> bool {
        &&& self.code == EXIT_FAILURE
        &&& self.record matches Some(r)
        &&& r.stream == Stream::Stderr
        &&& r.line@ == line
    }
}

/// The fatal end that an uncaught error brings: its report, and failure.
pub fn print_error_and_exit(err: &CaughtError) -> (exit: Exit)
    ensures
        exit.fails_with(error_line(*err)),
{
    Exit { record: Some(print_error(err)), code: EXIT_FAILURE }
}

/// The line that says that the script to run does not exist.
pub open spec fn not_found_line(file_path: Seq<char>) -> Seq<char> {
    file_path + ": No such file or directory"@ + "\n"@
}

/// Looks at the script to run before anything is built. Where it does not
/// exist the run ends at once, with a line that says so and with failure.
pub fn check_target(file_path: &str, exists: bool) -> (exit: Option<Exit>)
    ensures
        exit is None <==> exists,
        exit matches Some(e) ==> e.fails_with(not_found_line(file_path@)),
{
    if exists {
        None
    } else {
        let mut line = String::from_str(file_path);
        line.append(": No such file or directory");
        line.append("\n");
        Some(Exit { record: Some(LogRecord { stream: Stream::Stderr, line }), code: EXIT_FAILURE })
    }
}

/// The text that the interactive loop asks for input with.
pub fn repl_prompt() -> (prompt: &'static str)
    ensures
        prompt@ == ">> "@,
{
    ">> "
}

/// The phases of the host's life.
#[derive(Clone, Copy, Debug, PartialEq, Eq, Structural)]
pub enum Phase {
    /// The host is built: resolver, loader and builtin modules are in place.
    Constructed,
    /// The console is set; scripts may run.
    Ready,
    /// The entry module has run to its end; operations still under way are
    /// waited for.
    Idle,
    /// Every operation has come to its end and the host is torn down.
    TornDown,
    /// The process was ended at once, with this exit code.
    Exited(i32),
}

/// The state of the host: its phase, and how many asynchronous operations
/// have been begun and not yet come to their end.
pub struct VmState {
    pub phase: Phase,
    pub pending: nat,
}

/// What can happen to the host.
pub enum Event {
    /// The engine could not be built.
    EngineFailed,
    /// The console was set, or setting it failed.
    Init(bool),
    /// The entry module ran to its end, or threw.
    RunModule(bool),
    /// An asynchronous operation was begun.
    OperationStarted,
    /// An asynchronous operation came to its end.
    OperationCompleted,
    /// The host looked whether it can be torn down.
    Idle,
    /// A script asked for the process to end with this code.
    Exit(i32),
}

/// The host's life is over.
pub open spec fn finished(phase: Phase) -> bool {
    phase is TornDown || phase is Exited
}

/// The state of a host that was just built.
pub open spec fn initial_state() -> VmState {
    VmState { phase: Phase::Constructed, pending: 0 }
}

/// The state of the host after an event. Once its life is over nothing
/// changes it. A failure is fatal wherever it arrives; teardown happens only
/// from the idle phase, and only when no operation is under way.
pub open spec fn after(s: VmState, event: Event) -> VmState {
    if finished(s.phase) {
        s
    } else {
        match event {
            Event::EngineFailed => VmState { phase: Phase::Exited(EXIT_FAILURE), ..s },
            Event::Init(ok) => if !ok {
                VmState { phase: Phase::Exited(EXIT_FAILURE), ..s }
            } else if s.phase == Phase::Constructed {
                VmState { phase: Phase::Ready, ..s }
            } else {
                s
            },
            Event::RunModule(ok) => if !ok {
                VmState { phase: Phase::Exited(EXIT_FAILURE), ..s }
            } else if s.phase == Phase::Ready {
                VmState { phase: Phase::Idle, ..s }
            } else {
                s
            },
            Event::OperationStarted => VmState { pending: s.pending + 1, ..s },
            Event::OperationCompleted => if s.pending > 0 {
                VmState { pending: (s.pending - 1) as nat, ..s }
            } else {
                s
            },
            Event::Idle => if s.phase == Phase::Idle && s.pending == 0 {
                VmState { phase: Phase::TornDown, ..s }
            } else {
                s
            },
            Event::Exit(code) => VmState { phase: Phase::Exited(code), ..s },
        }
    }
}

/// The state of the host after a sequence of events.
pub open spec fn after_all(s: VmState, events: Seq<Event>) -> VmState
    decreases events.len(),
{
    if events.len() == 0 {
        s
    } else {
        after(after_all(s, events.drop_last()), events.last())
    }
}

/// The exit code of a phase in which the host's life is over.
pub open spec fn exit_code_of(phase: Phase) -> Option<i32> {
    match phase {
        Phase::TornDown => Some(EXIT_SUCCESS),
        Phase::Exited(code) => Some(code),
        _ => None,
    }
}

/// The runtime host.
pub struct VirtualMachine {
    phase: Phase,
    pending: u64,
    registry: Registry,
}

impl View for VirtualMachine {
    type V = VmState;

    closed spec fn view(&self) -> VmState {
        VmState { phase: self.phase, pending: self.pending as nat }
    }
}

impl VirtualMachine {
    /// The builtin modules that the host resolves, as registered.
    pub closed spec fn builtins(&self) -> Seq<(Seq<char>, crate::resolver::Builtin)> {
        self.registry@
    }

    /// Builds the host, with the registry of the builtin modules in place.
    pub fn new() -> (vm: VirtualMachine)
        ensures
            vm@ == initial_state(),
            vm.builtins() == builtin_table(),
    {
        VirtualMachine { phase: Phase::Constructed, pending: 0, registry: create_module_instances() }
    }

    /// The registry of the builtin modules.
    pub fn registry(&self) -> (registry: &Registry)
        ensures
            registry@ == self.builtins(),
    {
        &self.registry
    }

    /// The phase that the host is in.
    pub fn phase(&self) -> (phase: Phase)
        ensures
            phase == self@.phase,
    {
        self.phase
    }

    /// How many operations are under way.
    pub fn pending(&self) -> (pending: u64)
        ensures
            pending == self@.pending,
    {
        self.pending
    }

    /// The exit code, once the host's life is over.
    pub fn exit_code(&self) -> (code: Option<i32>)
        ensures
            code == exit_code_of(self@.phase),
    {
        match self.phase {
            Phase::TornDown => Some(EXIT_SUCCESS),
            Phase::Exited(code) => Some(code),
            _ => None,
        }
    }

    fn is_finished(&self) -> (over: bool)
        ensures
            over == finished(self@.phase),
    {
        match self.phase {
            Phase::TornDown => true,
            Phase::Exited(_) => true,
            _ => false,
        }
    }

    /// Takes note that the engine could not be built, with the engine's
    /// account of it: the account is reported and the process ends with
    /// failure.
    pub fn engine_failed(&mut self, detail: &str) -> (exit: Option<Exit>)
        ensures
            final(self)@ == after(old(self)@, Event::EngineFailed),
            final(self).builtins() == old(self).builtins(),
            exit is Some <==> !finished(old(self)@.phase),
            exit matches Some(e) ==> e.fails_with(detail@ + "\n"@),
    {
        if self.is_finished() {
            return None;
        }
        self.phase = Phase::Exited(EXIT_FAILURE);
        let mut line = String::from_str(detail);
        line.append("\n");
        Some(Exit { record: Some(LogRecord { stream: Stream::Stderr, line }), code: EXIT_FAILURE })
    }

    /// Takes the result of setting the console in the engine's context. A
    /// failure is reported and ends the process.
    pub fn init(&mut self, injected: Result<(), CaughtError>) -> (exit: Option<Exit>)
        ensures
            final(self)@ == after(old(self)@, Event::Init(injected is Ok)),
            final(self).builtins() == old(self).builtins(),
            exit is Some <==> injected is Err && !finished(old(self)@.phase),
            exit matches Some(e) ==> e.fails_with(error_line(injected->Err_0)),
    {
        if self.is_finished() {
            return None;
        }
        match injected {
            Ok(_) => {
                if self.phase == Phase::Constructed {
                    self.phase = Phase::Ready;
                }
                None
            },
            Err(err) => {
                self.phase = Phase::Exited(EXIT_FAILURE);
                Some(print_error_and_exit(&err))
            },
        }
    }

    /// Takes the result of running the entry module. Where it ran to its end
    /// the host idles next; an error that it threw is reported and ends the
    /// process with failure.
    pub fn run_module(&mut self, evaluated: Result<(), CaughtError>) -> (exit: Option<Exit>)
        ensures
            final(self)@ == after(old(self)@, Event::RunModule(evaluated is Ok)),
            final(self).builtins() == old(self).builtins(),
            exit is Some <==> evaluated is Err && !finished(old(self)@.phase),
            exit matches Some(e) ==> e.fails_with(error_line(evaluated->Err_0)),
    {
        if self.is_finished() {
            return None;
        }
        match evaluated {
            Ok(_) => {
                if self.phase == Phase::Ready {
                    self.phase = Phase::Idle;
                }
                None
            },
            Err(err) => {
                self.phase = Phase::Exited(EXIT_FAILURE);
                Some(print_error_and_exit(&err))
            },
        }
    }

    /// Takes the result of one line of the interactive loop: the value is
    /// echoed on the output stream, an error is reported on the diagnostic
    /// stream. Either way the loop goes on and the host stays as it is.
    pub fn repl(&self, evaluated: Result<EngineValue, CaughtError>) -> (record: LogRecord)
        ensures
            match evaluated {
                Ok(value) => record.stream == Stream::Stdout && record.line@ == rendered(value)
                    + "\n"@,
                Err(err) => record.stream == Stream::Stderr && record.line@ == error_line(err),
            },
    {
        match evaluated {
            Ok(value) => {
                let mut line = js_stringify(&value);
                line.append("\n");
                LogRecord { stream: Stream::Stdout, line }
            },
            Err(err) => print_error(&err),
        }
    }

    /// Notes that an asynchronous operation was begun.
    pub fn operation_started(&mut self)
        requires
            old(self)@.pending < u64::MAX,
        ensures
            final(self)@ == after(old(self)@, Event::OperationStarted),
            final(self).builtins() == old(self).builtins(),
    {
        if !self.is_finished() {
            self.pending = self.pending + 1;
        }
    }

    /// Notes that an asynchronous operation came to its end.
    pub fn operation_completed(&mut self)
        ensures
            final(self)@ == after(old(self)@, Event::OperationCompleted),
            final(self).builtins() == old(self).builtins(),
    {
        if !self.is_finished() && self.pending > 0 {
            self.pending = self.pending - 1;
        }
    }

    /// Looks whether the host can be torn down, and tears it down if so: in
    /// the idle phase, once no operation is under way. Says whether it did.
    pub fn idle(&mut self) -> (torn_down: bool)
        ensures
            final(self)@ == after(old(self)@, Event::Idle),
            final(self).builtins() == old(self).builtins(),
            torn_down <==> old(self)@.phase == Phase::Idle && old(self)@.pending == 0,
    {
        if self.phase == Phase::Idle && self.pending == 0 {
            self.phase = Phase::TornDown;
            true
        } else {
            false
        }
    }

    /// Ends the process at once with the given code, whatever is under way.
    pub fn exit(&mut self, code: i32) -> (exit: Option<Exit>)
        ensures
            final(self)@ == after(old(self)@, Event::Exit(code)),
            final(self).builtins() == old(self).builtins(),
            exit is Some <==> !finished(old(self)@.phase),
            exit matches Some(e) ==> e.code == code && e.record is None,
    {
        if self.is_finished() {
            None
        } else {
            self.phase = Phase::Exited(code);
            Some(Exit { record: None, code })
        }
    }
}

/// A host is torn down only when nothing is under way, and an operation,
/// once begun, is under way until it has come to its end: whatever happens to
/// a host from when it is built, if it ends torn down then every operation
/// that was begun has completed.
pub proof fn lemma_torn_down_is_drained(events: Seq<Event>)
    ensures
        after_all(initial_state(), events).phase == Phase::TornDown ==> after_all(
            initial_state(),
            events,
        ).pending == 0,
    decreases events.len(),
{
    if events.len() > 0 {
        lemma_torn_down_is_drained(events.drop_last());
    }
}

/// One event tears the host down only from the idle phase with nothing under
/// way; with an operation under way the host keeps idling.
pub proof fn lemma_teardown_waits(s: VmState, event: Event)
    ensures
        after(s, event).phase == Phase::TornDown && s.phase != Phase::TornDown ==> s.phase
            == Phase::Idle && s.pending == 0 && event is Idle,
        s.phase == Phase::Idle && s.pending > 0 && event is Idle ==> after(s, event) == s,
{
}

/// An error that the entry module threw and nobody caught ends the process
/// with exit code 1. An error object is reported with its name and message on
/// one line and its stack trace after it.
pub proof fn lemma_uncaught_exception(s: VmState, name: String, message: String, stack: String)
    requires
        !finished(s.phase),
    ensures
        after(s, Event::RunModule(false)).phase == Phase::Exited(1),
        error_line(
            CaughtError::Exception(
                EngineValue::Exception { name, message: Some(message), stack: Some(stack) },
            ),
        ) == name@ + ": "@ + message@ + "\n"@ + stack@ + "\n"@,
{
}

} // verus!
