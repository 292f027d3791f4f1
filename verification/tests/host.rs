//! The host's life, the command line, the system facts and the synchronous
//! runtime.

use yaso::cli::{get_program_argv, Command, CLI};
use yaso::console::{LogRecord, Stream};
use yaso::os::{c_string_text, get_machine, get_release, get_type, get_version, OsInfo, Uname};
use yaso::runtime::{ExecutionError, Runtime};
use yaso::value::EngineValue;
use yaso::vm::{
    check_target, print_error, print_error_and_exit, repl_prompt, CaughtError, Exit, Phase,
    VirtualMachine,
};

fn stderr(line: &str) -> LogRecord {
    LogRecord { stream: Stream::Stderr, line: line.to_string() }
}

fn thrown() -> CaughtError {
    CaughtError::Exception(EngineValue::Exception {
        name: "ReferenceError".to_string(),
        message: Some("x is not defined".to_string()),
        stack: Some("    at <anonymous> (main.mjs:3)\n".to_string()),
    })
}

#[test]
fn argv_is_path_then_arguments() {
    let cli = CLI {
        command: Command::Run {
            file_path: "main.mjs".to_string(),
            args: vec!["--fast".to_string(), "3".to_string()],
        },
    };
    assert_eq!(get_program_argv(cli), vec!["main.mjs", "--fast", "3"]);
}

#[test]
fn argv_without_arguments() {
    let cli = CLI { command: Command::Run { file_path: "a.js".to_string(), args: vec![] } };
    assert_eq!(get_program_argv(cli), vec!["a.js"]);
}

#[test]
fn c_string_ends_at_first_nul() {
    assert_eq!(c_string_text(b"Linux\0junk\0"), "Linux");
    assert_eq!(c_string_text(b"\0"), "");
    assert_eq!(c_string_text(b""), "");
    assert_eq!(c_string_text(b"no terminator"), "no terminator");
}

#[test]
fn c_string_is_decoded_lossily() {
    assert_eq!(c_string_text("caf\u{e9}\0".as_bytes()), "caf\u{e9}");
    assert_eq!(c_string_text(&[b'a', 0xff, b'b', 0]), "a\u{fffd}b");
}

#[test]
fn uname_reads_each_buffer() {
    let uname = Uname::new(b"Linux\0", b"host\0\0", b"6.1.0\0", b"#1 SMP\0", b"x86_64\0");
    assert_eq!(
        uname,
        Uname {
            sysname: "Linux".to_string(),
            nodename: "host".to_string(),
            release: "6.1.0".to_string(),
            version: "#1 SMP".to_string(),
            machine: "x86_64".to_string(),
        }
    );
}

#[test]
fn os_info_from_uname() {
    let uname = Uname::new(b"Linux\0", b"host\0", b"6.1.0\0", b"#1 SMP\0", b"x86_64\0");
    let info = OsInfo::new(Some(uname));
    assert_eq!(get_type(&info), "Linux");
    assert_eq!(get_release(&info), "6.1.0");
    assert_eq!(get_version(&info), "#1 SMP");
    assert_eq!(get_machine(&info), "x86_64");
}

#[test]
fn os_info_without_uname_is_not_available() {
    let info = OsInfo::new(None);
    assert_eq!(get_type(&info), "N/A");
    assert_eq!(get_release(&info), "N/A");
    assert_eq!(get_version(&info), "N/A");
    assert_eq!(get_machine(&info), "N/A");
}

#[test]
fn missing_target_fails_before_anything_is_built() {
    assert_eq!(check_target("main.mjs", true), None);
    assert_eq!(
        check_target("main.mjs", false),
        Some(Exit { record: Some(stderr("main.mjs: No such file or directory\n")), code: 1 })
    );
}

#[test]
fn errors_are_reported_on_the_diagnostic_stream() {
    assert_eq!(
        print_error(&CaughtError::Error("Error resolving module 'x' from 'y'".to_string())),
        stderr("Error resolving module 'x' from 'y'\n")
    );
    assert_eq!(print_error(&CaughtError::Value(EngineValue::Int(7))), stderr("7\n"));
    assert_eq!(
        print_error(&thrown()),
        stderr("ReferenceError: x is not defined\n    at <anonymous> (main.mjs:3)\n\n")
    );
}

#[test]
fn uncaught_exception_exits_with_one() {
    let mut vm = VirtualMachine::new();
    assert_eq!(vm.init(Ok(())), None);
    let exit = vm.run_module(Err(thrown())).unwrap();
    assert_eq!(exit.code, 1);
    assert_eq!(
        exit.record,
        Some(stderr("ReferenceError: x is not defined\n    at <anonymous> (main.mjs:3)\n\n"))
    );
    assert_eq!(vm.phase(), Phase::Exited(1));
    assert_eq!(vm.exit_code(), Some(1));
    assert_eq!(print_error_and_exit(&thrown()), exit);
}

#[test]
fn engine_that_cannot_be_built_exits_with_one() {
    let mut vm = VirtualMachine::new();
    assert_eq!(
        vm.engine_failed("failed to create an AsyncRuntime: out of memory"),
        Some(Exit {
            record: Some(stderr("failed to create an AsyncRuntime: out of memory\n")),
            code: 1
        })
    );
    assert_eq!(vm.phase(), Phase::Exited(1));
    assert_eq!(vm.init(Ok(())), None);
    assert_eq!(vm.engine_failed("again"), None);
}

#[test]
fn failed_init_exits_with_one() {
    let mut vm = VirtualMachine::new();
    let exit = vm.init(Err(CaughtError::Error("no console".to_string()))).unwrap();
    assert_eq!(exit, Exit { record: Some(stderr("no console\n")), code: 1 });
    assert_eq!(vm.phase(), Phase::Exited(1));
    assert_eq!(vm.run_module(Ok(())), None);
    assert_eq!(vm.phase(), Phase::Exited(1));
}

#[test]
fn graceful_run_goes_through_every_phase() {
    let mut vm = VirtualMachine::new();
    assert_eq!(vm.phase(), Phase::Constructed);
    assert_eq!(vm.exit_code(), None);
    assert!(!vm.idle());
    assert_eq!(vm.init(Ok(())), None);
    assert_eq!(vm.phase(), Phase::Ready);
    assert!(!vm.idle());
    assert_eq!(vm.run_module(Ok(())), None);
    assert_eq!(vm.phase(), Phase::Idle);
    assert!(vm.idle());
    assert_eq!(vm.phase(), Phase::TornDown);
    assert_eq!(vm.exit_code(), Some(0));
}

#[test]
fn idle_waits_for_a_write_under_way() {
    let mut vm = VirtualMachine::new();
    vm.init(Ok(()));
    vm.operation_started();
    vm.operation_started();
    assert_eq!(vm.run_module(Ok(())), None);
    assert_eq!(vm.pending(), 2);
    assert!(!vm.idle());
    vm.operation_completed();
    assert!(!vm.idle());
    assert_eq!(vm.phase(), Phase::Idle);
    vm.operation_completed();
    assert_eq!(vm.pending(), 0);
    assert!(vm.idle());
    assert_eq!(vm.exit_code(), Some(0));
}

#[test]
fn continuation_may_begin_more_work_while_idle() {
    let mut vm = VirtualMachine::new();
    vm.init(Ok(()));
    vm.operation_started();
    vm.run_module(Ok(()));
    vm.operation_started();
    vm.operation_completed();
    assert!(!vm.idle());
    vm.operation_completed();
    assert!(vm.idle());
}

#[test]
fn exit_ends_at_once_without_draining() {
    let mut vm = VirtualMachine::new();
    vm.init(Ok(()));
    vm.operation_started();
    assert_eq!(vm.exit(3), Some(Exit { record: None, code: 3 }));
    assert_eq!(vm.phase(), Phase::Exited(3));
    assert_eq!(vm.pending(), 1);
    assert!(!vm.idle());
    vm.operation_completed();
    assert_eq!(vm.pending(), 1);
    assert_eq!(vm.exit(4), None);
    assert_eq!(vm.exit_code(), Some(3));
}

#[test]
fn completion_without_operation_changes_nothing() {
    let mut vm = VirtualMachine::new();
    vm.operation_completed();
    assert_eq!(vm.pending(), 0);
    assert_eq!(vm.phase(), Phase::Constructed);
}

#[test]
fn repl_echoes_values_and_reports_errors() {
    let mut vm = VirtualMachine::new();
    vm.init(Ok(()));
    assert_eq!(repl_prompt(), ">> ");
    assert_eq!(
        vm.repl(Ok(EngineValue::Array(vec![EngineValue::Int(1), EngineValue::Int(2)]))),
        LogRecord { stream: Stream::Stdout, line: "[1, 2]\n".to_string() }
    );
    assert_eq!(vm.repl(Err(CaughtError::Value(EngineValue::Null))), stderr("null\n"));
    assert_eq!(vm.phase(), Phase::Ready);
}

#[test]
fn host_has_the_builtin_registry() {
    let vm = VirtualMachine::new();
    assert!(vm.registry().lookup("path").is_some());
    assert!(vm.registry().lookup("console").is_none());
}

#[test]
fn synchronous_run_reports_each_failure() {
    let runtime = Runtime::new();
    assert_eq!(runtime.run(Ok(())), None);
    assert_eq!(
        runtime.run(Err(ExecutionError::Conversion("bad value".to_string()))),
        Some(Exit { record: Some(stderr("ConversionError: bad value\n")), code: 1 })
    );
    assert_eq!(
        runtime.run(Err(ExecutionError::Internal("broken".to_string()))),
        Some(Exit { record: Some(stderr("InternalError: broken\n")), code: 1 })
    );
    assert_eq!(
        runtime.run(Err(ExecutionError::Exception("Error: x".to_string()))),
        Some(Exit { record: Some(stderr("UncaughtException: Error: x\n")), code: 1 })
    );
    assert_eq!(
        runtime.run(Err(ExecutionError::OutOfMemory)),
        Some(Exit { record: Some(stderr("OutOfMemory\n")), code: 1 })
    );
    assert_eq!(runtime.run(Err(ExecutionError::Other)), Some(Exit { record: None, code: 1 }));
}
