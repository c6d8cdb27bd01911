//! Graph schema (idempotent DDL), example hunt queries, and the small
//! query texts and result readers used by the store.

use vstd::prelude::*;
use crate::cypher::{CellValue, cell_count, cell_text, parse_count_value, value_to_string};

verus! {

/// Example hunt: processes that wrote files.
pub const EXAMPLE_HUNT_CYPHER: &'static str = "
MATCH (p:Process)-[r:WROTE]->(f:File)
RETURN p.path, f.path
ORDER BY r.timestamp_unix_ns DESC
LIMIT 100
";

/// Example hunt: process executions with command-line arguments.
pub const EXAMPLE_EXEC_HUNT_CYPHER: &'static str = "
MATCH (p:Process)
WHERE p.args_json IS NOT NULL
RETURN p.path, p.args_json
LIMIT 100
";


/// Options for opening a graph store (reserved for future use).
#[derive(Debug, Clone, PartialEq, Eq)]
pub struct GraphStoreOptions {}

impl Default for GraphStoreOptions {
    fn default() -> (r: Self)
        ensures
            r == (GraphStoreOptions {}),
    {
        GraphStoreOptions {}
    }
}

/// Column names and stringified row values from a RETURN query.
#[derive(Debug, Clone, PartialEq, Eq)]
pub struct QueryResult {
    /// Result column names.
    pub columns: Vec<String>,
    /// Rows as string cells (`NULL` becomes the empty string).
    pub rows: Vec<Vec<String>>,
}

/// Build a tabular result: every cell rendered by its display text.
pub fn tabulate(columns: Vec<String>, rows: &Vec<Vec<CellValue>>) -> (r: QueryResult)
    ensures
        r.columns@ == columns@,
        r.rows@.len() == rows@.len(),
        forall|i: int|
            0 <= i < rows@.len() ==> (#[trigger] r.rows@[i])@.len() == rows@[i]@.len() && forall|
                j: int,
            | 0 <= j < rows@[i]@.len() ==> (#[trigger] r.rows@[i]@[j])@ == cell_text(rows@[i]@[j]),
{
    let mut out: Vec<Vec<String>> = Vec::new();
    let n = rows.len();
    let mut i: usize = 0;
    while i < n
        invariant
            n == rows@.len(),
            i <= n,
            out@.len() == i,
            forall|a: int|
                0 <= a < i ==> (#[trigger] out@[a])@.len() == rows@[a]@.len() && forall|b: int|
                    0 <= b < rows@[a]@.len() ==> (#[trigger] out@[a]@[b])@ == cell_text(
                        rows@[a]@[b],
                    ),
        decreases n - i,
    {
        let row = &rows[i];
        let mut cells: Vec<String> = Vec::new();
        let m = row.len();
        let mut j: usize = 0;
        while j < m
            invariant
                m == row@.len(),
                j <= m,
                cells@.len() == j,
                forall|b: int| 0 <= b < j ==> (#[trigger] cells@[b])@ == cell_text(row@[b]),
            decreases m - j,
        {
            cells.push(value_to_string(&row[j]));
            j = j + 1;
        }
        out.push(cells);
        i = i + 1;
    }
    QueryResult { columns, rows: out }
}

/// The query that counts nodes of a label.
pub open spec fn count_label_text(label: Seq<char>) -> Seq<char> {
    "MATCH (n:"@ + label + ") RETURN count(n)"@
}

/// The query that counts relationships of a type.
pub open spec fn count_relationship_text(rel_type: Seq<char>) -> Seq<char> {
    "MATCH ()-[r:"@ + rel_type + "]->() RETURN count(r)"@
}

/// Cypher that counts nodes with the given label (`Process`, `File`, ...).
pub fn count_label_query(label: &str) -> (r: String)
    ensures
        r@ == count_label_text(label@),
{
    let mut s = String::from_str("MATCH (n:");
    s.append(label);
    s.append(") RETURN count(n)");
    s
}

/// Cypher that counts relationships of the given type.
pub fn count_relationship_query(rel_type: &str) -> (r: String)
    ensures
        r@ == count_relationship_text(rel_type@),
{
    let mut s = String::from_str("MATCH ()-[r:");
    s.append(rel_type);
    s.append("]->() RETURN count(r)");
    s
}

/// The count read from the first cell of a count query's first row: zero
/// when there is no row, no cell, or the cell holds no count.
pub fn count_from_first_cell(cell: Option<&CellValue>) -> (r: u64)
    ensures
        r == match cell {
            Some(c) => match cell_count(*c) {
                Some(n) => n,
                None => 0,
            },
            None => 0,
        },
{
    match cell {
        Some(c) => match parse_count_value(c) {
            Some(n) => n,
            None => 0,
        },
        None => 0,
    }
}

/// Query that reads the largest ingest-event id.
pub const MAX_INGEST_ID_CYPHER: &'static str =
    "MATCH (e:IngestEvent) RETURN e.id AS id ORDER BY e.id DESC LIMIT 1";

/// The next ingest-event id given the first cell of the largest-id query:
/// one past the stored id (saturating), or 1 when the graph holds none.
pub fn next_ingest_id_from(cell: Option<&CellValue>) -> (r: u64)
    ensures
        r == match cell {
            Some(c) => match cell_count(*c) {
                Some(n) => if n == u64::MAX {
                    u64::MAX
                } else {
                    (n + 1) as u64
                },
                None => 1,
            },
            None => 1,
        },
{
    match cell {
        Some(c) => match parse_count_value(c) {
            Some(n) => n.saturating_add(1),
            None => 1,
        },
        None => 1,
    }
}

} // verus!
