//! Script values as the host sees them.

use vstd::prelude::*;

verus! {

/// A value of the script engine, reduced to what the host reads of it: its
/// kind and, for the kinds that are rendered with their content, the content.
#[derive(Debug)]
pub enum EngineValue {
    /// A string, with its content.
    String(String),
    /// A boolean.
    Bool(bool),
    /// A small integer.
    Int(i32),
    /// An arbitrary-precision integer that fits 64 bits.
    BigInt(i64),
    /// A floating-point number, as its default decimal text.
    Float(String),
    /// An array, with its elements.
    Array(Vec<EngineValue>),
    /// A symbol, with the text of its description.
    Symbol(String),
    /// An error object: its name, its message and its stack trace.
    Exception { name: String, message: Option<String>, stack: Option<String> },
    /// Any other object.
    Object,
    /// A module namespace.
    Module,
    /// A function, with its name.
    Function(String),
    /// A constructor, with its name.
    Constructor(String),
    /// `null`.
    Null,
    /// `undefined`.
    Undefined,
    /// A binding that has not been initialized.
    Uninitialized,
    /// A value of a kind the host does not know.
    Unknown,
}

} // verus!
