//! One field of a typed section: where it stands in the file's tree, what
//! kind of value it takes, and what reading it gives.
//!
//! A field that the tree does not have keeps its default. A field that the
//! tree has must be of its kind; an optional field may also be nil, which
//! leaves it without a value.

use crate::error::{Error, Expected, Fault};
use crate::setting::{opt_text, opt_texts};
use crate::value::{Tree, Value};
use vstd::prelude::*;

verus! {

/// The path of a field: its section, a dot, its name.
pub open spec fn dotted(section: Seq<char>, field: Seq<char>) -> Seq<char> {
    section + "."@ + field
}

/// Whether `v` is of the kind `expected`; where `optional`, nil will do.
pub open spec fn fits(v: Tree, expected: Expected, optional: bool) -> bool {
    (optional && v is Nil) || match expected {
        Expected::Table => v is Table,
        Expected::Text => v is Text,
        Expected::Number { max } => v.as_number(max as int) is Some,
        Expected::TextList => v.as_texts() is Some,
    }
}

/// Whether the field is absent from `t`, or of the right kind.
pub open spec fn slot_fits(
    t: Tree,
    section: Seq<char>,
    field: Seq<char>,
    expected: Expected,
    optional: bool,
) -> bool {
    t.field(section, field) matches Some(v) ==> fits(v, expected, optional)
}

/// Whether the field is of the wrong kind in `t`, and `e` says so.
pub open spec fn slot_conflict(
    t: Tree,
    e: Fault,
    section: Seq<char>,
    field: Seq<char>,
    expected: Expected,
    optional: bool,
) -> bool {
    !slot_fits(t, section, field, expected, optional) && e == (Fault::Type {
        path: dotted(section, field),
        expected,
    })
}

/// The text of the field in `t`, or `default`.
pub open spec fn text_at(
    t: Tree,
    section: Seq<char>,
    field: Seq<char>,
    default: Seq<char>,
) -> Seq<char> {
    match t.field(section, field) {
        Some(Tree::Text(s)) => s,
        _ => default,
    }
}

/// The number of the field in `t`, or `default`.
pub open spec fn number_at(t: Tree, section: Seq<char>, field: Seq<char>, default: int) -> int {
    match t.field(section, field) {
        Some(Tree::Int(i)) => i,
        _ => default,
    }
}

/// The text of the field in `t`, if it has one.
pub open spec fn opt_text_at(t: Tree, section: Seq<char>, field: Seq<char>) -> Option<Seq<char>> {
    match t.field(section, field) {
        Some(v) => v.as_text(),
        None => None,
    }
}

/// The texts of the field in `t`, if it has a list of them.
pub open spec fn opt_texts_at(
    t: Tree,
    section: Seq<char>,
    field: Seq<char>,
) -> Option<Seq<Seq<char>>> {
    match t.field(section, field) {
        Some(v) => v.as_texts(),
        None => None,
    }
}

/// The error for a field of the wrong kind.
pub fn fault(section: &str, field: &str, expected: Expected) -> (e: Error)
    ensures
        e@ == (Fault::Type { path: dotted(section@, field@), expected }),
{
    Error::Type { path: String::from_str(section).concat(".").concat(field), expected }
}

/// Reads a field that holds a text.
pub fn text_field(root: &Value, section: &str, field: &str, default: String) -> (r: Result<
    String,
    Error,
>)
    ensures
        match r {
            Ok(s) => {
                &&& slot_fits(root.tree(), section@, field@, Expected::Text, false)
                &&& s@ == text_at(root.tree(), section@, field@, default@)
            },
            Err(e) => slot_conflict(root.tree(), e@, section@, field@, Expected::Text, false),
        },
{
    match root.field(section, field) {
        None => Ok(default),
        Some(v) => match v.as_text() {
            Some(s) => Ok(s),
            None => Err(fault(section, field, Expected::Text)),
        },
    }
}

/// Reads a field that holds a number from 0 to `max`.
pub fn number_field(root: &Value, section: &str, field: &str, max: u64, default: u64) -> (r:
    Result<u64, Error>)
    requires
        default <= max,
    ensures
        match r {
            Ok(n) => {
                &&& slot_fits(root.tree(), section@, field@, Expected::Number { max }, false)
                &&& n == number_at(root.tree(), section@, field@, default as int)
                &&& n <= max
            },
            Err(e) => slot_conflict(
                root.tree(),
                e@,
                section@,
                field@,
                Expected::Number { max },
                false,
            ),
        },
{
    match root.field(section, field) {
        None => Ok(default),
        Some(v) => match v.as_number(max) {
            Some(n) => Ok(n),
            None => Err(fault(section, field, Expected::Number { max })),
        },
    }
}

/// Reads a field that may hold a text.
pub fn opt_text_field(root: &Value, section: &str, field: &str) -> (r: Result<
    Option<String>,
    Error,
>)
    ensures
        match r {
            Ok(o) => {
                &&& slot_fits(root.tree(), section@, field@, Expected::Text, true)
                &&& opt_text(o) == opt_text_at(root.tree(), section@, field@)
            },
            Err(e) => slot_conflict(root.tree(), e@, section@, field@, Expected::Text, true),
        },
{
    match root.field(section, field) {
        None => Ok(None),
        Some(v) => match v {
            Value::Nil => Ok(None),
            _ => match v.as_text() {
                Some(s) => Ok(Some(s)),
                None => Err(fault(section, field, Expected::Text)),
            },
        },
    }
}

/// Reads a field that may hold a list of texts.
pub fn opt_texts_field(root: &Value, section: &str, field: &str) -> (r: Result<
    Option<Vec<String>>,
    Error,
>)
    ensures
        match r {
            Ok(o) => {
                &&& slot_fits(root.tree(), section@, field@, Expected::TextList, true)
                &&& opt_texts(o) == opt_texts_at(root.tree(), section@, field@)
            },
            Err(e) => slot_conflict(root.tree(), e@, section@, field@, Expected::TextList, true),
        },
{
    match root.field(section, field) {
        None => Ok(None),
        Some(v) => match v {
            Value::Nil => Ok(None),
            _ => match v.as_texts() {
                Some(list) => Ok(Some(list)),
                None => Err(fault(section, field, Expected::TextList)),
            },
        },
    }
}

} // verus!
