//! The open-flag language and the messages of failed file operations.

use yaso::fs::{
    after_write_phase, io_error, io_outcome, open_flags, parse_flags, FileOperation, FsModule,
    InvalidFlagError, IoError, OpenFlags, WriteNext, WritePhase,
};

fn flags(read: bool, write: bool, append: bool) -> OpenFlags {
    OpenFlags { read, write, append }
}

#[test]
fn flag_z_is_invalid() {
    let error = open_flags(Some("z")).unwrap_err();
    assert_eq!(error, InvalidFlagError { flag: 'z' });
    assert_eq!(error.message(), "Invalid flag: z");
}

#[test]
fn first_invalid_flag_is_named() {
    assert_eq!(parse_flags("rwxz"), Err(InvalidFlagError { flag: 'x' }));
    assert_eq!(parse_flags("R"), Err(InvalidFlagError { flag: 'R' }));
    assert_eq!(parse_flags("r w"), Err(InvalidFlagError { flag: ' ' }));
}

#[test]
fn default_flags_read() {
    assert_eq!(open_flags(None), Ok(flags(true, false, false)));
}

#[test]
fn each_flag_has_its_capability() {
    assert_eq!(parse_flags("r"), Ok(flags(true, false, false)));
    assert_eq!(parse_flags("w"), Ok(flags(false, true, false)));
    assert_eq!(parse_flags("c"), Ok(flags(false, false, true)));
}

#[test]
fn flags_combine() {
    assert_eq!(parse_flags("rc"), Ok(flags(true, false, true)));
    assert_eq!(parse_flags("wr"), Ok(flags(true, true, false)));
    assert_eq!(parse_flags("rwc"), Ok(flags(true, true, true)));
    assert_eq!(parse_flags("rrr"), Ok(flags(true, false, false)));
    assert_eq!(parse_flags(""), Ok(flags(false, false, false)));
}

#[test]
fn failures_carry_their_prefix() {
    assert_eq!(io_error(FileOperation::Open, "denied").message, "Could not open file: denied");
    assert_eq!(io_error(FileOperation::Read, "denied").message, "Could not read file: denied");
    assert_eq!(io_error(FileOperation::ReadLine, "eof").message, "Could not read line: eof");
    assert_eq!(io_error(FileOperation::Write, "full").message, "Could not write to file: full");
}

#[test]
fn outcome_keeps_value_or_wraps_failure() {
    assert_eq!(io_outcome(FileOperation::Read, Ok("hello".to_string())), Ok("hello".to_string()));
    assert_eq!(
        io_outcome::<String>(FileOperation::Read, Err("bad".to_string())),
        Err(IoError { operation: FileOperation::Read, message: "Could not read file: bad".to_string() })
    );
}

#[test]
fn write_flushes_before_it_returns() {
    assert_eq!(after_write_phase(WritePhase::Write, Ok(())), WriteNext::Flush);
    assert_eq!(after_write_phase(WritePhase::Flush, Ok(())), WriteNext::Finish(Ok(())));
}

#[test]
fn write_fails_in_either_phase() {
    let expected = WriteNext::Finish(Err(IoError {
        operation: FileOperation::Write,
        message: "Could not write to file: disk full".to_string(),
    }));
    assert_eq!(after_write_phase(WritePhase::Write, Err("disk full".to_string())), expected);
    assert_eq!(after_write_phase(WritePhase::Flush, Err("disk full".to_string())), expected);
}

#[test]
fn fs_module_exports() {
    let names = FsModule::declare();
    assert_eq!(names, vec!["open", "openSync", "default"]);
}
