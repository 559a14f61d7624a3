//! The store handle and the generic query executor.
//!
//! A `Database` owns the single connection to the persistent store; every
//! operation takes the handle exclusively, so no two callers can observe the
//! connection mid-mutation. A caller that needs to share the handle across
//! threads puts it behind a lock of its own.

use vstd::prelude::*;
use crate::model::rectangular;
use crate::sqlite;

verus! {

/// The single handle to the persistent store. The spec-level names in
/// `sqlite` speak of the connection it carries.
pub struct Database {
    pub conn: rusqlite::Connection,
}

impl Database {
    /// Opens the store file at `path`, creating it if absent. What the store
    /// already holds is whatever is on disk, so nothing is stated of it. The
    /// schema's references are declared, not enforced, so enforcement is
    /// turned off on the fresh connection. The store is single-connection by
    /// design: the contracts read the store through this one handle, and
    /// assume no second handle to the same file writes beside it.
    pub fn new(path: &str) -> (r: Result<Database, String>) {
        let mut conn = match sqlite::open_at(path) {
            Ok(conn) => conn,
            Err(e) => { return Err(e); },
        };
        match sqlite::disable_foreign_keys(&mut conn) {
            Ok(_) => Ok(Database { conn }),
            Err(e) => Err(e),
        }
    }

    /// Opens a fresh store that lives in memory only: it holds no tables.
    pub fn new_in_memory() -> (r: Result<Database, String>)
        ensures
            r matches Ok(d) ==> sqlite::db_tables(d.conn) == Set::<Seq<char>>::empty(),
    {
        let mut conn = match sqlite::open_memory() {
            Ok(conn) => conn,
            Err(e) => { return Err(e); },
        };
        match sqlite::disable_foreign_keys(&mut conn) {
            Ok(_) => Ok(Database { conn }),
            Err(e) => Err(e),
        }
    }

    /// Runs one SQL statement with positional string parameters and returns
    /// the affected row count. The statement is arbitrary, so nothing is
    /// stated of the store afterwards; any store error is surfaced verbatim.
    pub fn execute(&mut self, sql: &str, params: &Vec<String>) -> (r: Result<usize, String>) {
        sqlite::exec_sql(&mut self.conn, sql, params)
    }

    /// Runs one row-returning SQL statement and returns every column of every
    /// row coerced to a string. The matrix is rectangular: each row carries
    /// exactly as many entries as the statement declares columns.
    pub fn query(&mut self, sql: &str, params: &Vec<String>) -> (r: Result<Vec<Vec<String>>, String>)
        ensures
            r matches Ok(m) ==> rectangular(m@),
    {
        let mut stmt = match sqlite::prepare(&mut self.conn, sql) {
            Ok(s) => s,
            Err(e) => { return Err(e); },
        };
        let ncols = sqlite::stmt_column_count(&stmt);
        let mut rows = match sqlite::stmt_query(&mut stmt, params) {
            Ok(r) => r,
            Err(e) => { return Err(e); },
        };
        let mut out: Vec<Vec<String>> = Vec::new();
        // The result set is read to its end; a statement that keeps streaming
        // rows past any realistic result size is cut off as an error.
        let mut budget: u64 = u64::MAX;
        loop
            invariant
                forall|i: int| 0 <= i < out@.len() ==> out@[i]@.len() == ncols,
            decreases budget,
        {
            if budget == 0 {
                return Err(String::from_str("Query returned too many rows"));
            }
            budget = budget - 1;
            match sqlite::rows_next(&mut rows) {
                Ok(Some(row)) => {
                    let vals = collect_row(row, ncols);
                    out.push(vals);
                },
                Ok(None) => { return Ok(out); },
                Err(e) => { return Err(e); },
            }
        }
    }
}

/// Reads the first `ncols` columns of one result row as strings.
fn collect_row(row: &rusqlite::Row<'_>, ncols: usize) -> (r: Vec<String>)
    ensures
        r@.len() == ncols,
{
    let mut vals: Vec<String> = Vec::new();
    let mut i: usize = 0;
    while i < ncols
        invariant
            i <= ncols,
            vals@.len() == i,
        decreases ncols - i,
    {
        vals.push(sqlite::row_get_string(row, i));
        i = i + 1;
    }
    vals
}

/// Runs a statement with no row results and acknowledges success, per the
/// command surface: any store error is surfaced verbatim.
pub fn execute_query(db: &mut Database, sql: &str, params: Vec<String>) -> (r: Result<String, String>)
    ensures
        r matches Ok(m) ==> m@ == "Query executed successfully"@,
{
    match db.execute(sql, &params) {
        Ok(_) => Ok(String::from_str("Query executed successfully")),
        Err(e) => Err(e),
    }
}

/// Runs a row-returning statement and hands back the rectangular string
/// matrix.
pub fn run_query(db: &mut Database, sql: &str, params: Vec<String>) -> (r: Result<
    Vec<Vec<String>>,
    String,
>)
    ensures
        r matches Ok(m) ==> rectangular(m@),
{
    db.query(sql, &params)
}

} // verus!
