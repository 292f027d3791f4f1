//! The console: how values are rendered as text, and what each logging call
//! writes where.
//!
//! Nothing here writes; a logging call yields the line and the stream it goes
//! to, and the embedding program writes it, ignoring failures.

use vstd::prelude::*;
use crate::text::{decimal, decimal_text, same_text};
use crate::value::EngineValue;

verus! {

/// How a function is rendered, by its name.
pub open spec fn rendered_function(name: Seq<char>) -> Seq<char> {
    if name.len() == 0 {
        "[Function (anonymous)]"@
    } else {
        "[Function: "@ + name + "]"@
    }
}

/// How a symbol is rendered, by the text of its description.
pub open spec fn rendered_symbol(description: Seq<char>) -> Seq<char> {
    if description == "undefined"@ {
        "Symbol("@ + ")"@
    } else {
        "Symbol("@ + description + ")"@
    }
}

/// How an error object is rendered: name and message on a line of their own
/// where there is a message, then the stack trace where there is one.
pub open spec fn rendered_exception(
    name: Seq<char>,
    message: Option<Seq<char>>,
    stack: Option<Seq<char>>,
) -> Seq<char> {
    let head = match message {
        Some(m) => name + ": "@ + m + "\n"@,
        None => Seq::empty(),
    };
    let tail = match stack {
        Some(s) => s,
        None => Seq::empty(),
    };
    head + tail
}

/// The text of an optional string.
pub open spec fn option_text(s: Option<String>) -> Option<Seq<char>> {
    match s {
        Some(t) => Some(t@),
        None => None,
    }
}

/// The text that a value is rendered as.
pub open spec fn rendered(value: EngineValue) -> Seq<char>
    decreases value, 0nat,
{
    match value {
        EngineValue::String(s) => s@,
        EngineValue::Bool(b) => if b {
            "true"@
        } else {
            "false"@
        },
        EngineValue::Int(n) => decimal_text(n as int),
        EngineValue::BigInt(n) => decimal_text(n as int).push('n'),
        EngineValue::Float(text) => text@,
        EngineValue::Array(items) => "["@ + rendered_items(items@, items@.len()) + "]"@,
        EngineValue::Symbol(description) => rendered_symbol(description@),
        EngineValue::Exception { name, message, stack } => rendered_exception(
            name@,
            option_text(message),
            option_text(stack),
        ),
        EngineValue::Object => "[Object]"@,
        EngineValue::Module => "[Module]"@,
        EngineValue::Function(name) => rendered_function(name@),
        EngineValue::Constructor(name) => rendered_function(name@),
        EngineValue::Null => "null"@,
        EngineValue::Undefined => "undefined"@,
        EngineValue::Uninitialized => "undefined"@,
        EngineValue::Unknown => "{unknown}"@,
    }
}

/// The first `n` of `items`, each rendered, with `, ` between neighbours.
pub open spec fn rendered_items(items: Seq<EngineValue>, n: nat) -> Seq<char>
    decreases items, n,
{
    if n == 0 || n > items.len() {
        Seq::empty()
    } else if n == 1 {
        rendered(items[0])
    } else {
        rendered_items(items, (n - 1) as nat) + ", "@ + rendered(items[n - 1])
    }
}

/// Renders a value as text, by its kind: strings as they are, numbers in
/// decimal, arrays element by element, everything else by a fixed form.
pub fn js_stringify(value: &EngineValue) -> (result: String)
    ensures
        result@ == rendered(*value),
    decreases value,
{
    match value {
        EngineValue::String(s) => s.clone(),
        EngineValue::Bool(b) => if *b {
            String::from_str("true")
        } else {
            String::from_str("false")
        },
        EngineValue::Int(n) => decimal(*n as i64),
        EngineValue::BigInt(n) => {
            let mut result = decimal(*n);
            result.push('n');
            result
        },
        EngineValue::Float(text) => text.clone(),
        EngineValue::Array(items) => {
            let mut result = String::from_str("[");
            let mut i: usize = 0;
            while i < items.len()
                invariant
                    i <= items.len(),
                    *value == EngineValue::Array(*items),
                    result@ == "["@ + rendered_items(items@, i as nat),
                decreases items.len() - i,
            {
                let ghost before = result@;
                if i > 0 {
                    result.append(", ");
                }
                proof {
                    vstd::std_specs::vec::axiom_vec_index_decreases(*items, i as int);
                    assert(value->Array_0 == *items);
                }
                let item = js_stringify(&items[i]);
                result.append(item.as_str());
                proof {
                    if i == 0 {
                        assert(rendered_items(items@, 0) =~= Seq::<char>::empty());
                        assert(result@ =~= "["@ + rendered_items(items@, 1));
                    } else {
                        assert(result@ =~= "["@ + (rendered_items(items@, i as nat) + ", "@
                            + rendered(items@[i as int])));
                    }
                }
                i += 1;
            }
            result.append("]");
            result
        },
        EngineValue::Symbol(description) => {
            let mut result = String::from_str("Symbol(");
            if !same_text(description.as_str(), "undefined") {
                result.append(description.as_str());
            }
            result.append(")");
            result
        },
        EngineValue::Exception { name, message, stack } => {
            let mut result = String::new();
            match message {
                Some(m) => {
                    result.append(name.as_str());
                    result.append(": ");
                    result.append(m.as_str());
                    result.append("\n");
                    assert(result@ =~= name@ + ": "@ + m@ + "\n"@);
                },
                None => {},
            }
            match stack {
                Some(s) => {
                    result.append(s.as_str());
                },
                None => {
                    assert(result@ + Seq::<char>::empty() =~= result@);
                },
            }
            result
        },
        EngineValue::Object => String::from_str("[Object]"),
        EngineValue::Module => String::from_str("[Module]"),
        EngineValue::Function(name) => function_text(name.as_str()),
        EngineValue::Constructor(name) => function_text(name.as_str()),
        EngineValue::Null => String::from_str("null"),
        EngineValue::Undefined => String::from_str("undefined"),
        EngineValue::Uninitialized => String::from_str("undefined"),
        EngineValue::Unknown => String::from_str("{unknown}"),
    }
}

/// Renders a function by its name.
fn function_text(name: &str) -> (result: String)
    ensures
        result@ == rendered_function(name@),
{
    if name.is_empty() {
        String::from_str("[Function (anonymous)]")
    } else {
        let mut result = String::from_str("[Function: ");
        result.append(name);
        result.append("]");
        result
    }
}

/// The arguments of a logging call, each rendered on its own, with one space
/// between neighbours.
pub open spec fn formatted_upto(args: Seq<EngineValue>, n: nat) -> Seq<char>
    decreases n,
{
    if n == 0 || n > args.len() {
        Seq::empty()
    } else if n == 1 {
        rendered(args[0])
    } else {
        formatted_upto(args, (n - 1) as nat) + " "@ + rendered(args[n - 1])
    }
}

/// The text of a logging call with the given arguments.
pub open spec fn formatted_args(args: Seq<EngineValue>) -> Seq<char> {
    formatted_upto(args, args.len())
}

/// The line that a logging call writes: its text and a newline.
pub open spec fn log_line(args: Seq<EngineValue>) -> Seq<char> {
    formatted_args(args) + "\n"@
}

/// Renders the arguments of a logging call, each on its own, and joins them
/// with single spaces.
pub fn js_format(args: &Vec<EngineValue>) -> (result: String)
    ensures
        result@ == formatted_args(args@),
{
    let mut result = String::new();
    let mut i: usize = 0;
    while i < args.len()
        invariant
            i <= args.len(),
            result@ == formatted_upto(args@, i as nat),
        decreases args.len() - i,
    {
        if i > 0 {
            result.append(" ");
        }
        let item = js_stringify(&args[i]);
        result.append(item.as_str());
        if i == 0 {
            assert(result@ =~= formatted_upto(args@, 1));
        }
        i += 1;
    }
    result
}

/// The streams that the console writes to.
#[derive(Clone, Copy, Debug, PartialEq, Eq, Structural)]
pub enum Stream {
    /// The output stream.
    Stdout,
    /// The diagnostic stream.
    Stderr,
}

/// The methods of the console.
#[derive(Clone, Copy, Debug, PartialEq, Eq, Structural)]
pub enum ConsoleMethod {
    Log,
    Info,
    Trace,
    Debug,
    Error,
    Warn,
    Assert,
}

/// The stream that a method of the console writes to: the diagnostic stream
/// for errors, warnings and failed assertions, the output stream otherwise.
pub open spec fn stream_of(method: ConsoleMethod) -> Stream {
    match method {
        ConsoleMethod::Log => Stream::Stdout,
        ConsoleMethod::Info => Stream::Stdout,
        ConsoleMethod::Trace => Stream::Stdout,
        ConsoleMethod::Debug => Stream::Stdout,
        ConsoleMethod::Error => Stream::Stderr,
        ConsoleMethod::Warn => Stream::Stderr,
        ConsoleMethod::Assert => Stream::Stderr,
    }
}

/// The methods of the `console` object by name, in the order they are set.
pub open spec fn console_methods() -> Seq<(Seq<char>, ConsoleMethod)> {
    seq![
        ("log"@, ConsoleMethod::Log),
        ("info"@, ConsoleMethod::Info),
        ("trace"@, ConsoleMethod::Trace),
        ("debug"@, ConsoleMethod::Debug),
        ("error"@, ConsoleMethod::Error),
        ("warn"@, ConsoleMethod::Warn),
        ("assert"@, ConsoleMethod::Assert),
    ]
}

/// The name under which the console is set on the global object.
pub open spec fn console_name() -> Seq<char> {
    "console"@
}

/// The console as it is set up in a fresh context: the name of the global,
/// and the methods that the object under it has.
pub fn init() -> (console: (String, Vec<(String, ConsoleMethod)>))
    ensures
        console.0@ == console_name(),
        console.1@.map_values(|m: (String, ConsoleMethod)| (m.0@, m.1)) == console_methods(),
{
    let mut methods: Vec<(String, ConsoleMethod)> = Vec::new();
    methods.push((String::from_str("log"), ConsoleMethod::Log));
    methods.push((String::from_str("info"), ConsoleMethod::Info));
    methods.push((String::from_str("trace"), ConsoleMethod::Trace));
    methods.push((String::from_str("debug"), ConsoleMethod::Debug));
    methods.push((String::from_str("error"), ConsoleMethod::Error));
    methods.push((String::from_str("warn"), ConsoleMethod::Warn));
    methods.push((String::from_str("assert"), ConsoleMethod::Assert));
    assert(methods@.map_values(|m: (String, ConsoleMethod)| (m.0@, m.1)) =~= console_methods());
    (String::from_str("console"), methods)
}

/// A line to be written to a stream.
#[derive(Debug, PartialEq, Eq)]
pub struct LogRecord {
    pub stream: Stream,
    pub line: String,
}

/// What a logging call writes on `stream`: its arguments, rendered and joined,
/// and a newline.
fn log_on(stream: Stream, args: &Vec<EngineValue>) -> (record: LogRecord)
    ensures
        record.stream == stream,
        record.line@ == log_line(args@),
{
    let mut line = js_format(args);
    line.append("\n");
    LogRecord { stream, line }
}

/// What `log`, `info`, `trace` and `debug` write: a line on the output stream.
pub fn log_stdout(args: &Vec<EngineValue>) -> (record: LogRecord)
    ensures
        record.stream == Stream::Stdout,
        record.line@ == log_line(args@),
{
    log_on(Stream::Stdout, args)
}

/// What `error` and `warn` write: a line on the diagnostic stream.
pub fn log_stderr(args: &Vec<EngineValue>) -> (record: LogRecord)
    ensures
        record.stream == Stream::Stderr,
        record.line@ == log_line(args@),
{
    log_on(Stream::Stderr, args)
}

/// What `assert` writes: nothing where the expression holds, else the line of
/// its other arguments on the diagnostic stream.
pub fn log_assert(expression: bool, args: &Vec<EngineValue>) -> (record: Option<LogRecord>)
    ensures
        record is Some <==> !expression,
        record matches Some(r) ==> r.stream == Stream::Stderr && r.line@ == log_line(args@),
{
    if !expression {
        Some(log_stderr(args))
    } else {
        None
    }
}

/// What a call of a console method writes, if anything. `assert` takes the
/// truth of its first argument as `expression`; the other methods ignore it.
pub fn log(method: ConsoleMethod, expression: bool, args: &Vec<EngineValue>) -> (record: Option<
    LogRecord,
>)
    ensures
        record is Some <==> !(method == ConsoleMethod::Assert && expression),
        record matches Some(r) ==> r.stream == stream_of(method) && r.line@ == log_line(args@),
{
    match method {
        ConsoleMethod::Log => Some(log_stdout(args)),
        ConsoleMethod::Info => Some(log_stdout(args)),
        ConsoleMethod::Trace => Some(log_stdout(args)),
        ConsoleMethod::Debug => Some(log_stdout(args)),
        ConsoleMethod::Error => Some(log_stderr(args)),
        ConsoleMethod::Warn => Some(log_stderr(args)),
        ConsoleMethod::Assert => log_assert(expression, args),
    }
}

} // verus!
