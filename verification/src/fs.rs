//! The `fs` builtin module: the open-flag language and the messages of failed
//! file operations.
//!
//! Opening, reading and writing files is the embedding program's part; what
//! is decided here is which capabilities a flag string asks for, which flag
//! is refused, and what a script is told when an operation fails.

use vstd::prelude::*;
use crate::exports::{
    bind, declared_names, default_name, entries, export_default, names_of, HostBinding,
    Namespace,
};
use crate::text::{chars_of, texts};

verus! {

/// The capabilities that a file is opened with.
#[derive(Clone, Copy, Debug, PartialEq, Eq, Structural)]
pub struct OpenFlags {
    pub read: bool,
    pub write: bool,
    pub append: bool,
}

/// A flag character that the open-flag language does not have.
#[derive(Clone, Copy, Debug, PartialEq, Eq, Structural)]
pub struct InvalidFlagError {
    pub flag: char,
}

/// The flag characters: `r` for reading, `w` for writing, `c` for appending.
pub open spec fn is_flag(c: char) -> bool {
    c == 'r' || c == 'w' || c == 'c'
}

/// The capabilities that a string of flag characters asks for.
pub open spec fn flags_of(flags: Seq<char>) -> OpenFlags {
    OpenFlags {
        read: flags.contains('r'),
        write: flags.contains('w'),
        append: flags.contains('c'),
    }
}

/// The position of the first character of `flags` that is no flag, or the
/// length of `flags` where every character is one.
pub open spec fn first_invalid(flags: Seq<char>) -> int
    decreases flags.len(),
{
    if flags.len() == 0 || !is_flag(flags[0]) {
        0
    } else {
        1 + first_invalid(flags.drop_first())
    }
}

/// What a flag string means: its capabilities, or its first character that
/// is no flag.
pub open spec fn parsed_flags(flags: Seq<char>) -> Result<OpenFlags, InvalidFlagError> {
    let k = first_invalid(flags);
    if 0 <= k < flags.len() {
        Err(InvalidFlagError { flag: flags[k] })
    } else {
        Ok(flags_of(flags))
    }
}

/// The flags that a file is opened with where none are given.
pub open spec fn default_flags() -> Seq<char> {
    seq!['r']
}

/// The first invalid position lies within the string, everything before it
/// is a flag, and the character there, if any, is none.
pub proof fn lemma_first_invalid(flags: Seq<char>)
    ensures
        0 <= first_invalid(flags) <= flags.len(),
        forall|i: int| 0 <= i < first_invalid(flags) ==> is_flag(flags[i]),
        first_invalid(flags) < flags.len() ==> !is_flag(flags[first_invalid(flags)]),
    decreases flags.len(),
{
    if flags.len() > 0 && is_flag(flags[0]) {
        let rest = flags.drop_first();
        lemma_first_invalid(rest);
        assert forall|i: int| 0 <= i < first_invalid(flags) implies is_flag(flags[i]) by {
            if i > 0 {
                assert(flags[i] == rest[i - 1]);
            }
        }
        if first_invalid(flags) < flags.len() {
            assert(flags[first_invalid(flags)] == rest[first_invalid(rest)]);
        }
    }
}

/// Reads a flag string character by character. Each flag switches its
/// capability on; the first character that is no flag is refused.
pub fn parse_flags(flags: &str) -> (out: Result<OpenFlags, InvalidFlagError>)
    ensures
        out == parsed_flags(flags@),
        out is Ok <==> forall|i: int| 0 <= i < flags@.len() ==> is_flag(flags@[i]),
{
    let chars = chars_of(flags);
    let mut result = OpenFlags { read: false, write: false, append: false };
    let mut i: usize = 0;
    proof {
        lemma_first_invalid(chars@);
    }
    while i < chars.len()
        invariant
            i <= chars.len(),
            chars@ == flags@,
            i <= first_invalid(chars@),
            result == flags_of(chars@.take(i as int)),
            0 <= first_invalid(chars@) <= chars.len(),
            forall|j: int| 0 <= j < first_invalid(chars@) ==> is_flag(chars@[j]),
            first_invalid(chars@) < chars.len() ==> !is_flag(chars@[first_invalid(chars@)]),
        decreases chars.len() - i,
    {
        let c = chars[i];
        let ghost before = chars@.take(i as int);
        let ghost after = chars@.take(i + 1);
        proof {
            assert(after == before.push(c));
            assert forall|x: char| after.contains(x) <==> (before.contains(x) || x == c) by {
                if before.contains(x) {
                    let j = choose|j: int| 0 <= j < before.len() && before[j] == x;
                    assert(after[j] == x);
                }
                if x == c {
                    assert(after[i as int] == c);
                }
            }
        }
        if c == 'r' {
            result.read = true;
        } else if c == 'w' {
            result.write = true;
        } else if c == 'c' {
            result.append = true;
        } else {
            assert(first_invalid(chars@) == i);
            return Err(InvalidFlagError { flag: c });
        }
        assert(i < first_invalid(chars@));
        i += 1;
    }
    assert(chars@.take(chars.len() as int) == chars@);
    Ok(result)
}

/// The capabilities that a file is opened with: those of the flags given, or
/// of `r` where none are given.
pub fn open_flags(flags: Option<&str>) -> (out: Result<OpenFlags, InvalidFlagError>)
    ensures
        out == match flags {
            Some(given) => parsed_flags(given@),
            None => parsed_flags(default_flags()),
        },
{
    match flags {
        Some(given) => parse_flags(given),
        None => {
            proof {
                reveal_strlit("r");
                assert("r"@ =~= default_flags());
            }
            parse_flags("r")
        },
    }
}

impl InvalidFlagError {
    /// What the script is told: `Invalid flag: ` and the character.
    pub open spec fn message_text(self) -> Seq<char> {
        "Invalid flag: "@.push(self.flag)
    }

    /// The message of the error.
    pub fn message(&self) -> (out: String)
        ensures
            out@ == self.message_text(),
    {
        let mut out = String::from_str("Invalid flag: ");
        out.push(self.flag);
        out
    }
}

/// The operations on files that can fail.
#[derive(Clone, Copy, Debug, PartialEq, Eq, Structural)]
pub enum FileOperation {
    Open,
    Read,
    ReadLine,
    Write,
}

/// How the message of a failed operation begins.
pub open spec fn failure_prefix(operation: FileOperation) -> Seq<char> {
    match operation {
        FileOperation::Open => "Could not open file: "@,
        FileOperation::Read => "Could not read file: "@,
        FileOperation::ReadLine => "Could not read line: "@,
        FileOperation::Write => "Could not write to file: "@,
    }
}

/// A failed file operation, as the script gets to see it.
#[derive(Debug, PartialEq, Eq)]
pub struct IoError {
    pub operation: FileOperation,
    pub message: String,
}

/// Wraps the system's account of a failure into the error of the operation
/// that failed: the operation's prefix, then the system's words.
pub fn io_error(operation: FileOperation, detail: &str) -> (error: IoError)
    ensures
        error.operation == operation,
        error.message@ == failure_prefix(operation) + detail@,
{
    let mut message = match operation {
        FileOperation::Open => String::from_str("Could not open file: "),
        FileOperation::Read => String::from_str("Could not read file: "),
        FileOperation::ReadLine => String::from_str("Could not read line: "),
        FileOperation::Write => String::from_str("Could not write to file: "),
    };
    message.append(detail);
    IoError { operation, message }
}

/// The outcome of an operation that the system carried out: its value, or
/// the operation's error around the system's account of the failure.
pub fn io_outcome<T>(operation: FileOperation, result: Result<T, String>) -> (out: Result<
    T,
    IoError,
>)
    ensures
        match result {
            Ok(value) => out == Ok::<T, IoError>(value),
            Err(detail) => out is Err && out->Err_0.operation == operation
                && out->Err_0.message@ == failure_prefix(operation) + detail@,
        },
{
    match result {
        Ok(value) => Ok(value),
        Err(detail) => Err(io_error(operation, detail.as_str())),
    }
}

/// The two phases of a write: the text is written, then the file is flushed.
#[derive(Clone, Copy, Debug, PartialEq, Eq, Structural)]
pub enum WritePhase {
    Write,
    Flush,
}

/// What follows a phase of a write.
#[derive(Debug, PartialEq, Eq)]
pub enum WriteNext {
    /// The text is written; the file is to be flushed.
    Flush,
    /// The write is over, with this result.
    Finish(Result<(), IoError>),
}

/// Decides what follows a phase of a write. A write returns only after the
/// flush; a failure in either phase ends it with the error of a failed write.
pub fn after_write_phase(phase: WritePhase, result: Result<(), String>) -> (next: WriteNext)
    ensures
        match result {
            Ok(_) => match phase {
                WritePhase::Write => next is Flush,
                WritePhase::Flush => next == WriteNext::Finish(Ok(())),
            },
            Err(detail) => next is Finish && next->Finish_0 is Err && next->Finish_0->Err_0.operation
                == FileOperation::Write && next->Finish_0->Err_0.message@ == failure_prefix(
                FileOperation::Write,
            ) + detail@,
        },
{
    match result {
        Ok(_) => match phase {
            WritePhase::Write => WriteNext::Flush,
            WritePhase::Flush => WriteNext::Finish(Ok(())),
        },
        Err(detail) => WriteNext::Finish(Err(io_error(FileOperation::Write, detail.as_str()))),
    }
}

/// The `fs` builtin module.
pub struct FsModule;

impl FsModule {
    /// What the module binds, in order.
    pub open spec fn bindings() -> Seq<(Seq<char>, HostBinding)> {
        seq![("open"@, HostBinding::FsOpen), ("openSync"@, HostBinding::FsOpenSync)]
    }

    /// The table of the module's bindings.
    pub fn table() -> (table: Vec<(String, HostBinding)>)
        ensures
            entries(table@) == Self::bindings(),
    {
        let mut table: Vec<(String, HostBinding)> = Vec::new();
        assert(entries(table@) =~= Seq::empty());
        bind(&mut table, "open", HostBinding::FsOpen);
        bind(&mut table, "openSync", HostBinding::FsOpenSync);
        assert(entries(table@) =~= Self::bindings());
        table
    }

    /// The names the module exports: those of its bindings, then `default`.
    pub fn declare() -> (names: Vec<String>)
        ensures
            texts(names@) == names_of(Self::bindings()).push(default_name()),
    {
        declared_names(&Self::table())
    }

    /// The namespace of the module: every binding as a named export and as a
    /// property of `default`.
    pub fn evaluate() -> (ns: Namespace<HostBinding>)
        ensures
            ns.named_exports() == Self::bindings(),
            ns.default_export() == Self::bindings(),
    {
        export_default(&Self::table())
    }
}

} // verus!
