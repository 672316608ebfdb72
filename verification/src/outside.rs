//! The calls into other crates, and what is believed of each.
//!
//! Nothing in this file is proved. Each function here makes one call, and
//! its contract is what the rest of the library takes that call to do.

use crate::nesting::{nesting, MAX_NESTING};
use crate::value::{Tree, Value};
use config::ValueKind;
use vstd::prelude::*;

verus! {

/// What TOML text denotes: the tree of its root table, or the parser's
/// complaint where the text is not TOML.
pub uninterp spec fn toml_tree(text: Seq<char>) -> Result<Tree, Seq<char>>;

/// A text as a JSON string: between quotes, with the escapes that
/// `serde_json` writes.
pub uninterp spec fn json_string(text: Seq<char>) -> Seq<char>;

/// The meaning of what [`parse_toml`] hands back.
pub open spec fn parsed_tree(r: Result<Value, String>) -> Result<Tree, Seq<char>> {
    match r {
        Ok(v) => Ok(v.tree()),
        Err(m) => Err(m@),
    }
}

/// `config::ValueKind`, what a value of `config` holds. It is only handed
/// on: nothing is known of its inside.
#[verifier::external_type_specification]
#[verifier::external_body]
pub struct ExValueKind(config::ValueKind);

/// Trusted: the part of [`parse_toml`] that has to call itself. It rewrites
/// a value of `config`, given by its `ValueKind`, as a [`Value`], kind for
/// kind and child for child. Nothing is claimed here; [`parse_toml`] states
/// what the two together give.
#[verifier::external_body]
fn value_of(kind: ValueKind) -> Value {
    match kind {
        ValueKind::Nil => Value::Nil,
        ValueKind::Boolean(b) => Value::Boolean(b),
        ValueKind::I64(i) => Value::Integer(i.into()),
        ValueKind::I128(i) => Value::Integer(i),
        ValueKind::U64(u) => Value::Unsigned(u.into()),
        ValueKind::U128(u) => Value::Unsigned(u),
        ValueKind::Float(f) => Value::Float(f.to_bits()),
        ValueKind::String(s) => Value::String(s),
        ValueKind::Array(a) => Value::Array(a.into_iter().map(|v| value_of(v.kind)).collect()),
        ValueKind::Table(t) => Value::Table(
            t.into_iter().map(|(k, v)| (k, value_of(v.kind))).collect()
        )
    }
}

/// Trusted: parses `text` with `config::FileFormat::Toml` (the `parse` of
/// `config::Format`). The contract claims that the outcome depends on the
/// text alone: it is the root table that [`toml_tree`] names, or the
/// parser's message. The parser descends as deep as the text nests and has
/// no limit of its own, so a text that nests deeper than [`MAX_NESTING`] is
/// kept from it.
#[verifier::external_body]
pub(crate) fn parse_toml(text: &str) -> (r: Result<Value, String>)
    requires
        nesting(text@) <= MAX_NESTING,
    ensures
        parsed_tree(r) == toml_tree(text@),
{
    match config::Format::parse(&config::FileFormat::Toml, None, text) {
        Ok(table) => Ok(value_of(ValueKind::Table(table))),
        Err(e) => Err(e.to_string()),
    }
}

/// Trusted: `serde_json::to_string` on a string slice. It writes into
/// memory and has no failing path for a string, so the text always comes
/// back; the contract names it, as a function of `text` alone.
#[verifier::external_body]
pub(crate) fn quoted(text: &str) -> (r: String)
    ensures
        r@ == json_string(text@),
{
    serde_json::to_string(text).unwrap_or_default()
}

} // verus!
