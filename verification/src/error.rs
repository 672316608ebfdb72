//! What can go wrong while a configuration is loaded or watched.

use vstd::prelude::*;

verus! {

/// The kind of value that a place in the document calls for.
#[derive(Clone, Copy, Debug, PartialEq, Eq, Structural)]
pub enum Expected {
    Table,
    Text,
    /// An integer from 0 to `max`.
    Number { max: u64 },
    /// A list of texts.
    TextList,
}

/// A failed load or watch.
#[derive(Debug)]
pub enum Error {
    /// The file could not be read, or could not be watched.
    Io(String),
    /// The text nests deeper than the loader follows it.
    Nesting,
    /// The text is not TOML; the parser's message.
    Syntax(String),
    /// The value at `path` (a key, or `section.field`; empty for the root) is
    /// not of the kind `expected`.
    Type { path: String, expected: Expected },
    /// The change notifier failed.
    Watch(String),
}

/// An [`Error`] with its texts as sequences of characters.
pub enum Fault {
    Io(Seq<char>),
    Nesting,
    Syntax(Seq<char>),
    Type { path: Seq<char>, expected: Expected },
    Watch(Seq<char>),
}

impl View for Error {
    type V = Fault;

    open spec fn view(&self) -> Fault {
        match self {
            Error::Io(m) => Fault::Io(m@),
            Error::Nesting => Fault::Nesting,
            Error::Syntax(m) => Fault::Syntax(m@),
            Error::Type { path, expected } => Fault::Type { path: path@, expected: *expected },
            Error::Watch(m) => Fault::Watch(m@),
        }
    }
}

impl Expected {
    /// The words for this kind in a message.
    pub open spec fn phrase(self) -> Seq<char> {
        match self {
            Expected::Table => "a table"@,
            Expected::Text => "a string"@,
            Expected::Number { max } => "an unsigned integer within the field's range"@,
            Expected::TextList => "a list of strings"@,
        }
    }

    /// The words for this kind in a message.
    pub fn words(&self) -> (r: &'static str)
        ensures
            r@ == self.phrase(),
    {
        match self {
            Expected::Table => "a table",
            Expected::Text => "a string",
            Expected::Number { max } => "an unsigned integer within the field's range",
            Expected::TextList => "a list of strings",
        }
    }
}

impl Fault {
    /// Whether this is a fault of the file's content: nesting too deep, bad
    /// syntax, or a value of the wrong kind.
    pub open spec fn is_parse(self) -> bool {
        self is Nesting || self is Syntax || self is Type
    }

    /// The message that [`Error::message`] gives.
    pub open spec fn message(self) -> Seq<char> {
        match self {
            Fault::Io(m) => "io error: "@ + m,
            Fault::Nesting => "parse error: the text nests too deeply"@,
            Fault::Syntax(m) => "parse error: "@ + m,
            Fault::Type { path, expected } => "parse error: invalid type at `"@ + path
                + "`, expected "@ + expected.phrase(),
            Fault::Watch(m) => "watch error: "@ + m,
        }
    }
}

impl Error {
    /// Whether this is a fault of the file's content: nesting too deep, bad
    /// syntax, or a value of the wrong kind.
    pub fn is_parse(&self) -> (r: bool)
        ensures
            r == self@.is_parse(),
    {
        match self {
            Error::Nesting => true,
            Error::Syntax(_) => true,
            Error::Type { .. } => true,
            _ => false,
        }
    }

    /// A line of text for a log.
    pub fn message(&self) -> (r: String)
        ensures
            r@ == self@.message(),
    {
        match self {
            Error::Io(m) => String::from_str("io error: ").concat(m.as_str()),
            Error::Nesting => String::from_str("parse error: the text nests too deeply"),
            Error::Syntax(m) => String::from_str("parse error: ").concat(m.as_str()),
            Error::Type { path, expected } => String::from_str(
                "parse error: invalid type at `",
            ).concat(path.as_str()).concat("`, expected ").concat(expected.words()),
            Error::Watch(m) => String::from_str("watch error: ").concat(m.as_str()),
        }
    }
}

} // verus!
