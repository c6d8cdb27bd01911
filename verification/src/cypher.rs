//! Cypher literal rendering.

use vstd::prelude::*;
use crate::text::{
    i64_decimal, int_decimal, join, join_strings, lemma_signed_decimal_roundtrip, nat_decimal,
    parse_i64_spec, parse_u64, parse_u64_spec, push_char,
    string_views, u64_decimal,
};

verus! {

/// Escaped form of one character inside a double-quoted Cypher literal.
pub open spec fn cypher_escape_char(c: char) -> Seq<char> {
    if c == '\\' {
        seq!['\\', '\\']
    } else if c == '"' {
        seq!['\\', '"']
    } else {
        seq![c]
    }
}

/// Escaped body of a Cypher string literal: backslashes doubled, quotes escaped.
pub open spec fn cypher_escape(s: Seq<char>) -> Seq<char>
    decreases s.len(),
{
    if s.len() == 0 {
        seq![]
    } else {
        cypher_escape(s.drop_last()) + cypher_escape_char(s.last())
    }
}

/// A double-quoted Cypher string literal denoting `s`.
pub open spec fn cypher_literal(s: Seq<char>) -> Seq<char> {
    seq!['"'] + cypher_escape(s) + seq!['"']
}

/// Escape a string for use inside double-quoted Cypher literals.
pub fn cypher_str(s: &str) -> (r: String)
    ensures
        r@ == cypher_literal(s@),
{
    let mut out = String::new();
    push_char(&mut out, '"');
    for c in it: s.chars()
        invariant
            it.seq() == s@,
            out@ == seq!['"'] + cypher_escape(s@.take(it.index() as int)),
    {
        assert(s@.take(it.index() + 1).drop_last() == s@.take(it.index() as int));
        if c == '\\' {
            push_char(&mut out, '\\');
            push_char(&mut out, '\\');
        } else if c == '"' {
            push_char(&mut out, '\\');
            push_char(&mut out, '"');
        } else {
            push_char(&mut out, c);
        }
    }
    assert(s@.take(s@.len() as int) == s@);
    push_char(&mut out, '"');
    out
}


/// Cypher spelling of a boolean.
pub open spec fn bool_text(b: bool) -> Seq<char> {
    if b {
        "true"@
    } else {
        "false"@
    }
}

/// A property assignment `prefix.key = value`.
pub open spec fn assign_text(prefix: Seq<char>, key: Seq<char>, value: Seq<char>) -> Seq<char> {
    prefix + "."@ + key + " = "@ + value
}

/// Render an integer as a Cypher literal.
pub fn cypher_i64(v: i64) -> (r: String)
    ensures
        r@ == int_decimal(v as int),
        parse_i64_spec(r@) == Some(v),
{
    proof {
        lemma_signed_decimal_roundtrip(v);
    }
    i64_decimal(v)
}

/// Render a boolean as a Cypher literal.
pub fn cypher_bool(v: bool) -> (r: String)
    ensures
        r@ == bool_text(v),
{
    if v {
        String::from_str("true")
    } else {
        String::from_str("false")
    }
}

fn assign(prefix: &str, key: &str, value: String) -> (r: String)
    ensures
        r@ == assign_text(prefix@, key@, value@),
{
    let mut s = String::from_str(prefix);
    s.append(".");
    s.append(key);
    s.append(" = ");
    s.append(value.as_str());
    s
}

/// Format an optional string property assignment (`n.key = "..."`).
pub fn opt_str_assign(prefix: &str, key: &str, value: Option<&str>) -> (r: Option<String>)
    ensures
        match value {
            Some(v) => r matches Some(t) && t@ == assign_text(prefix@, key@, cypher_literal(v@)),
            None => r is None,
        },
{
    match value {
        Some(v) => Some(assign(prefix, key, cypher_str(v))),
        None => None,
    }
}

/// Format an optional integer property assignment.
pub fn opt_i64_assign(prefix: &str, key: &str, value: Option<i64>) -> (r: Option<String>)
    ensures
        match value {
            Some(v) => r matches Some(t) && t@ == assign_text(prefix@, key@, int_decimal(v as int)),
            None => r is None,
        },
{
    match value {
        Some(v) => Some(assign(prefix, key, cypher_i64(v))),
        None => None,
    }
}

/// Format an optional boolean property assignment.
pub fn opt_bool_assign(prefix: &str, key: &str, value: Option<bool>) -> (r: Option<String>)
    ensures
        match value {
            Some(v) => r matches Some(t) && t@ == assign_text(prefix@, key@, bool_text(v)),
            None => r is None,
        },
{
    match value {
        Some(v) => Some(assign(prefix, key, cypher_bool(v))),
        None => None,
    }
}

/// Join `prop = value` fragments into a SET clause body.
pub fn join_set_clauses(clauses: &[String]) -> (r: String)
    ensures
        r@ == join(string_views(clauses@), ", "@),
{
    join_strings(clauses, ", ")
}

/// One cell of a query result, holding what the logic reads of it.
#[derive(Debug, Clone, PartialEq, Eq)]
pub enum CellValue {
    /// SQL-style NULL.
    Null,
    /// A string value.
    Text(String),
    /// A signed 64-bit integer.
    Int64(i64),
    /// A signed 32-bit integer.
    Int32(i32),
    /// An unsigned 64-bit integer.
    UInt64(u64),
    /// Any other value, carried as the text that the database driver
    /// displays for it.
    Other(String),
}

/// The display text of a cell: empty for NULL, the string itself for
/// strings, decimal for integers.
pub open spec fn cell_text(v: CellValue) -> Seq<char> {
    match v {
        CellValue::Null => seq![],
        CellValue::Text(s) => s@,
        CellValue::Int64(x) => int_decimal(x as int),
        CellValue::Int32(x) => int_decimal(x as int),
        CellValue::UInt64(x) => nat_decimal(x as nat),
        CellValue::Other(t) => t@,
    }
}

/// The count that a cell holds: non-negative integers directly, anything
/// else by parsing its text as an unsigned decimal.
pub open spec fn cell_count(v: CellValue) -> Option<u64> {
    match v {
        CellValue::Int64(x) => if x >= 0 {
            Some(x as u64)
        } else {
            parse_u64_spec(cell_text(v))
        },
        CellValue::UInt64(x) => Some(x),
        CellValue::Int32(x) => if x >= 0 {
            Some(x as u64)
        } else {
            parse_u64_spec(cell_text(v))
        },
        _ => parse_u64_spec(cell_text(v)),
    }
}

/// Convert a cell to a display string for CLI output.
pub fn value_to_string(value: &CellValue) -> (r: String)
    ensures
        r@ == cell_text(*value),
{
    match value {
        CellValue::Null => String::new(),
        CellValue::Text(s) => s.clone(),
        CellValue::Int64(x) => i64_decimal(*x),
        CellValue::Int32(x) => i64_decimal(*x as i64),
        CellValue::UInt64(x) => u64_decimal(*x),
        CellValue::Other(t) => t.clone(),
    }
}

/// Parse the first column of a count query as `u64`.
pub fn parse_count_value(value: &CellValue) -> (r: Option<u64>)
    ensures
        r == cell_count(*value),
{
    match value {
        CellValue::Int64(x) if *x >= 0 => Some(*x as u64),
        CellValue::UInt64(x) => Some(*x),
        CellValue::Int32(x) if *x >= 0 => Some(*x as u64),
        _ => {
            let text = value_to_string(value);
            parse_u64(text.as_str())
        },
    }
}

} // verus!
