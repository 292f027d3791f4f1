//! How the console renders values and what its methods write.

use yaso::console::{
    init, js_format, js_stringify, log, log_assert, log_stderr, log_stdout, ConsoleMethod,
    LogRecord, Stream,
};
use yaso::text::decimal;
use yaso::value::EngineValue;

fn text(s: &str) -> EngineValue {
    EngineValue::String(s.to_string())
}

#[test]
fn array_is_rendered_element_by_element() {
    let value = EngineValue::Array(vec![EngineValue::Int(1), text("x"), EngineValue::Bool(true)]);
    assert_eq!(js_stringify(&value), "[1, x, true]");
}

#[test]
fn big_int_ends_in_n() {
    assert_eq!(js_stringify(&EngineValue::BigInt(42)), "42n");
    assert_eq!(js_stringify(&EngineValue::BigInt(-7)), "-7n");
    assert_eq!(js_stringify(&EngineValue::BigInt(i64::MIN)), "-9223372036854775808n");
}

#[test]
fn string_is_rendered_raw() {
    assert_eq!(js_stringify(&text("say \"hi\"")), "say \"hi\"");
    assert_eq!(js_stringify(&text("")), "");
}

#[test]
fn bool_is_rendered_as_word() {
    assert_eq!(js_stringify(&EngineValue::Bool(true)), "true");
    assert_eq!(js_stringify(&EngineValue::Bool(false)), "false");
}

#[test]
fn int_is_rendered_in_decimal() {
    assert_eq!(js_stringify(&EngineValue::Int(0)), "0");
    assert_eq!(js_stringify(&EngineValue::Int(1234567890)), "1234567890");
    assert_eq!(js_stringify(&EngineValue::Int(-42)), "-42");
    assert_eq!(js_stringify(&EngineValue::Int(i32::MIN)), "-2147483648");
    assert_eq!(js_stringify(&EngineValue::Int(i32::MAX)), "2147483647");
}

#[test]
fn decimal_agrees_with_std() {
    for n in [0i64, 1, 9, 10, 11, 99, 100, 101, -1, -10, 4096, i64::MAX, i64::MIN, i64::MIN + 1] {
        assert_eq!(decimal(n), n.to_string());
    }
}

#[test]
fn float_is_rendered_by_its_text() {
    assert_eq!(js_stringify(&EngineValue::Float((1.5f64).to_string())), "1.5");
    assert_eq!(js_stringify(&EngineValue::Float((1e21f64).to_string())), "1000000000000000000000");
}

#[test]
fn nested_and_empty_arrays() {
    assert_eq!(js_stringify(&EngineValue::Array(vec![])), "[]");
    assert_eq!(js_stringify(&EngineValue::Array(vec![EngineValue::Null])), "[null]");
    let inner = EngineValue::Array(vec![EngineValue::Int(2), EngineValue::Int(3)]);
    let outer = EngineValue::Array(vec![EngineValue::Int(1), inner, EngineValue::Array(vec![])]);
    assert_eq!(js_stringify(&outer), "[1, [2, 3], []]");
}

#[test]
fn symbol_with_and_without_description() {
    assert_eq!(js_stringify(&EngineValue::Symbol("tag".to_string())), "Symbol(tag)");
    assert_eq!(js_stringify(&EngineValue::Symbol("undefined".to_string())), "Symbol()");
    assert_eq!(js_stringify(&EngineValue::Symbol(String::new())), "Symbol()");
}

#[test]
fn exception_with_message_and_stack() {
    let value = EngineValue::Exception {
        name: "TypeError".to_string(),
        message: Some("x is not a function".to_string()),
        stack: Some("    at main (a.mjs:1)\n".to_string()),
    };
    assert_eq!(js_stringify(&value), "TypeError: x is not a function\n    at main (a.mjs:1)\n");
}

#[test]
fn exception_with_message_only() {
    let value = EngineValue::Exception {
        name: "Error".to_string(),
        message: Some("boom".to_string()),
        stack: None,
    };
    assert_eq!(js_stringify(&value), "Error: boom\n");
}

#[test]
fn exception_with_stack_only() {
    let value = EngineValue::Exception {
        name: "Error".to_string(),
        message: None,
        stack: Some("    at f\n".to_string()),
    };
    assert_eq!(js_stringify(&value), "    at f\n");
}

#[test]
fn exception_with_nothing_is_empty() {
    let value = EngineValue::Exception { name: "Error".to_string(), message: None, stack: None };
    assert_eq!(js_stringify(&value), "");
}

#[test]
fn objects_and_modules_are_placeholders() {
    assert_eq!(js_stringify(&EngineValue::Object), "[Object]");
    assert_eq!(js_stringify(&EngineValue::Module), "[Module]");
}

#[test]
fn functions_by_name() {
    assert_eq!(js_stringify(&EngineValue::Function("main".to_string())), "[Function: main]");
    assert_eq!(js_stringify(&EngineValue::Function(String::new())), "[Function (anonymous)]");
    assert_eq!(js_stringify(&EngineValue::Constructor("Map".to_string())), "[Function: Map]");
    assert_eq!(js_stringify(&EngineValue::Constructor(String::new())), "[Function (anonymous)]");
}

#[test]
fn null_undefined_and_unknown() {
    assert_eq!(js_stringify(&EngineValue::Null), "null");
    assert_eq!(js_stringify(&EngineValue::Undefined), "undefined");
    assert_eq!(js_stringify(&EngineValue::Uninitialized), "undefined");
    assert_eq!(js_stringify(&EngineValue::Unknown), "{unknown}");
}

#[test]
fn format_joins_with_single_spaces() {
    let args = vec![text("a"), EngineValue::Int(1), EngineValue::Null];
    assert_eq!(js_format(&args), "a 1 null");
    assert_eq!(js_format(&vec![text("only")]), "only");
    assert_eq!(js_format(&vec![]), "");
    assert_eq!(js_format(&vec![text(""), text("")]), " ");
}

#[test]
fn log_line_ends_in_one_newline() {
    let args = vec![text("hello"), text("world")];
    assert_eq!(
        log_stdout(&args),
        LogRecord { stream: Stream::Stdout, line: "hello world\n".to_string() }
    );
    assert_eq!(
        log_stderr(&args),
        LogRecord { stream: Stream::Stderr, line: "hello world\n".to_string() }
    );
    assert_eq!(log_stdout(&vec![]).line, "\n");
}

#[test]
fn assert_logs_only_when_falsy() {
    let args = vec![text("must hold")];
    assert_eq!(log_assert(true, &args), None);
    assert_eq!(
        log_assert(false, &args),
        Some(LogRecord { stream: Stream::Stderr, line: "must hold\n".to_string() })
    );
}

#[test]
fn methods_write_to_their_streams() {
    let args = vec![text("x")];
    for method in [ConsoleMethod::Log, ConsoleMethod::Info, ConsoleMethod::Trace, ConsoleMethod::Debug] {
        assert_eq!(log(method, false, &args).unwrap().stream, Stream::Stdout);
    }
    for method in [ConsoleMethod::Error, ConsoleMethod::Warn] {
        assert_eq!(log(method, true, &args).unwrap().stream, Stream::Stderr);
    }
    assert_eq!(log(ConsoleMethod::Assert, true, &args), None);
    assert_eq!(log(ConsoleMethod::Assert, false, &args).unwrap().stream, Stream::Stderr);
}

#[test]
fn console_has_its_seven_methods() {
    let (name, methods) = init();
    assert_eq!(name, "console");
    let names: Vec<&str> = methods.iter().map(|m| m.0.as_str()).collect();
    assert_eq!(names, vec!["log", "info", "trace", "debug", "error", "warn", "assert"]);
    assert_eq!(methods[4].1, ConsoleMethod::Error);
    assert_eq!(methods[6].1, ConsoleMethod::Assert);
}
