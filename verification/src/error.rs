//! Why a command or a cell reference is turned down.

use vstd::prelude::*;

verus! {

/// Why a text does not refer to a cell.
#[derive(Clone, Copy, Debug, PartialEq, Eq, Structural)]
pub enum IndexError {
    /// The text has the form of a key and the key is of no cell.
    InvalidString,
    /// The text is the decimal number `value`, which is of no cell.
    InvalidIndex { value: u64 },
    /// The text is neither a key nor a decimal number.
    FailedConversion,
}

/// The kind of reply that was expected where another came.
#[derive(Clone, Copy, Debug, PartialEq, Eq, Structural)]
pub enum Expected {
    /// A simple string.
    SimpleString,
    /// A list.
    Array,
    /// A list or nothing.
    ArrayOrNull,
    /// A score or nothing.
    ScoreOrNull,
}

/// Why a command fails.
#[derive(Clone, Copy, Debug, PartialEq, Eq, Structural)]
pub enum CommandError {
    /// The arguments do not follow the command's syntax.
    Syntax,
    /// An argument that the command needs is missing.
    WrongArity,
    /// A longitude or latitude is not a number.
    InvalidCoordinate,
    /// A cell reference is neither the key nor the decimal number of a cell.
    InvalidIndexString,
    /// A cell given for direct insertion is not of the finest resolution.
    InvalidResolution,
    /// A stored score does not decode to a cell.
    DecodeFailure,
    /// A unit of distance is none of the four known units.
    UnsupportedUnit,
    /// The cursor of an enumeration is not a whole number.
    InvalidCursor,
    /// The argument at `position` is not a whole number.
    NotAnInteger { position: usize },
    /// The store replied with another kind of value than `expected`.
    UnexpectedReply { expected: Expected },
    /// One of the two members has no position to measure from.
    NoDistance,
    /// The command is not implemented.
    NotImplemented,
}

impl Expected {
    /// What is said where a reply is of another kind.
    pub open spec fn message_of(self) -> Seq<char> {
        match self {
            Expected::SimpleString => "Unexpected type (not SimpleString)"@,
            Expected::Array => "Unexpected type (not Array)"@,
            Expected::ArrayOrNull => "Unexpected type (not Array or Null)"@,
            Expected::ScoreOrNull => "Unexpected type (SimpleString or Null)"@,
        }
    }

    /// What to say where a reply is of another kind.
    pub fn message(&self) -> (text: &'static str)
        ensures
            text@ == self.message_of(),
    {
        match self {
            Expected::SimpleString => "Unexpected type (not SimpleString)",
            Expected::Array => "Unexpected type (not Array)",
            Expected::ArrayOrNull => "Unexpected type (not Array or Null)",
            Expected::ScoreOrNull => "Unexpected type (SimpleString or Null)",
        }
    }
}

impl CommandError {
    /// What is said of the failure. A failure of syntax is followed by the
    /// syntax of the command, and an argument that is no whole number by
    /// the argument.
    pub open spec fn message_of(self) -> Seq<char> {
        match self {
            CommandError::Syntax => "syntax error"@,
            CommandError::WrongArity => "wrong number of arguments"@,
            CommandError::InvalidCoordinate => "Invalid lng or lat value"@,
            CommandError::InvalidIndexString => "Invalid h3idx value"@,
            CommandError::InvalidResolution => "Invalid h3idx resolution (must be 15)"@,
            CommandError::DecodeFailure => "Invalid h3idx value"@,
            CommandError::UnsupportedUnit => "unsupported unit provided. please use m, km, ft, mi"@,
            CommandError::InvalidCursor => "invalid cursor"@,
            CommandError::NotAnInteger { position } => "Couldn't parse as integer"@,
            CommandError::UnexpectedReply { expected } => expected.message_of(),
            CommandError::NoDistance => "error trying to get distance"@,
            CommandError::NotImplemented => "Command not implemented"@,
        }
    }

    /// What to say of the failure.
    pub fn message(&self) -> (text: &'static str)
        ensures
            text@ == self.message_of(),
    {
        match self {
            CommandError::Syntax => "syntax error",
            CommandError::WrongArity => "wrong number of arguments",
            CommandError::InvalidCoordinate => "Invalid lng or lat value",
            CommandError::InvalidIndexString => "Invalid h3idx value",
            CommandError::InvalidResolution => "Invalid h3idx resolution (must be 15)",
            CommandError::DecodeFailure => "Invalid h3idx value",
            CommandError::UnsupportedUnit => "unsupported unit provided. please use m, km, ft, mi",
            CommandError::InvalidCursor => "invalid cursor",
            CommandError::NotAnInteger { position } => "Couldn't parse as integer",
            CommandError::UnexpectedReply { expected } => expected.message(),
            CommandError::NoDistance => "error trying to get distance",
            CommandError::NotImplemented => "Command not implemented",
        }
    }
}

} // verus!
