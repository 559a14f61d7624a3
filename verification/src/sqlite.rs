//! Trusted boundary around the embedded SQLite store (the rusqlite crate).
//!
//! Everything the verified library assumes of the persistent store stands in
//! this file: the connection and statement types, spec-level names for what
//! the store holds, and one wrapper around each store call the library makes.

use vstd::prelude::*;
use crate::model::UserRec;
use crate::model::UserRow;
use crate::schema::table_ddl;
use crate::schema::table_name;

verus! {

#[verifier::external_type_specification]
#[verifier::external_body]
pub struct ExConnection(rusqlite::Connection);

#[verifier::external_type_specification]
#[verifier::external_body]
pub struct ExStatement<'conn>(rusqlite::Statement<'conn>);

#[verifier::external_type_specification]
#[verifier::external_body]
pub struct ExRows<'stmt>(rusqlite::Rows<'stmt>);

#[verifier::external_type_specification]
#[verifier::external_body]
pub struct ExRow<'stmt>(rusqlite::Row<'stmt>);

/// The names of the tables (and of any views, which a table creation treats
/// as already-present tables) in the store behind `c`.
pub uninterp spec fn db_tables(c: rusqlite::Connection) -> Set<Seq<char>>;

/// The rows of the `users` table behind `c`, keyed by username. The store
/// declares `username` UNIQUE, so one entry per key models the table exactly.
pub uninterp spec fn db_users(c: rusqlite::Connection) -> Map<Seq<char>, UserRec>;

/// For each name that occurs in the `categories` table behind `c`, the id
/// and description of the row a lookup by that name returns.
pub uninterp spec fn db_categories(c: rusqlite::Connection) -> Map<Seq<char>, (Seq<char>, Seq<char>)>;

/// Whether the store behind `c` carries the `users` table exactly as the
/// fixed schema creates it — username UNIQUE, the declared columns — with no
/// caller-added trigger rewiring writes to or from it. The fixed schema's
/// own creation establishes it; an arbitrary SQL statement may destroy it,
/// so it is unknown again after one runs.
pub uninterp spec fn users_schema(c: rusqlite::Connection) -> bool;

/// Whether the store behind `c` carries the `categories` table exactly as
/// the fixed schema creates it, as `users_schema` says for `users`.
pub uninterp spec fn categories_schema(c: rusqlite::Connection) -> bool;

/// Relies on rusqlite::Connection::open_in_memory: a fresh in-memory store
/// holds no tables at all.
#[verifier::external_body]
pub(crate) fn open_memory() -> (r: Result<rusqlite::Connection, String>)
    ensures
        r matches Ok(c) ==> db_tables(c) == Set::<Seq<char>>::empty(),
{
    rusqlite::Connection::open_in_memory().map_err(|e| e.to_string())
}

/// Relies on rusqlite::Connection::open: it opens (creating it if absent) the
/// store file at `path`, whose contents are whatever is on disk, so nothing is
/// stated of the store behind the connection.
#[verifier::external_body]
pub(crate) fn open_at(path: &str) -> (r: Result<rusqlite::Connection, String>)
{
    rusqlite::Connection::open(path).map_err(|e| e.to_string())
}

/// Relies on rusqlite::Connection::pragma_update with `foreign_keys`: it
/// turns enforcement of the declared references off — the schema declares
/// them, but leaves referential integrity to the caller — and changes no
/// table contents and no table definition.
#[verifier::external_body]
pub(crate) fn disable_foreign_keys(conn: &mut rusqlite::Connection) -> (r: Result<(), String>)
    ensures
        db_tables(*final(conn)) == db_tables(*old(conn)),
        db_users(*final(conn)) == db_users(*old(conn)),
        db_categories(*final(conn)) == db_categories(*old(conn)),
        users_schema(*final(conn)) == users_schema(*old(conn)),
        categories_schema(*final(conn)) == categories_schema(*old(conn)),
{
    conn.pragma_update(None, "foreign_keys", false).map_err(|e| e.to_string())
}

/// Relies on rusqlite::Connection::execute: it runs one arbitrary SQL
/// statement with the given positional string parameters and returns the
/// affected row count. The statement may change the store in any way, so
/// nothing is stated of the store behind `conn` afterwards.
#[verifier::external_body]
pub(crate) fn exec_sql(conn: &mut rusqlite::Connection, sql: &str, params: &Vec<String>) -> (r: Result<
    usize,
    String,
>)
{
    conn.execute(sql, rusqlite::params_from_iter(params.iter())).map_err(|e| e.to_string())
}

/// Relies on rusqlite::Connection::prepare: it compiles one SQL statement.
/// Running the statement later may change the store, so nothing is stated of
/// the store behind `conn` once the borrow ends.
#[verifier::external_body]
pub(crate) fn prepare<'conn>(conn: &'conn mut rusqlite::Connection, sql: &str) -> (r: Result<
    rusqlite::Statement<'conn>,
    String,
>)
{
    conn.prepare(sql).map_err(|e| e.to_string())
}

/// Relies on rusqlite::Statement::column_count: the number of columns the
/// prepared statement declares.
#[verifier::external_body]
pub(crate) fn stmt_column_count(stmt: &rusqlite::Statement<'_>) -> (r: usize)
{
    stmt.column_count()
}

/// Relies on rusqlite::Statement::query: it binds the positional string
/// parameters and starts running the statement.
#[verifier::external_body]
pub(crate) fn stmt_query<'stmt>(
    stmt: &'stmt mut rusqlite::Statement<'_>,
    params: &Vec<String>,
) -> (r: Result<rusqlite::Rows<'stmt>, String>)
{
    stmt.query(rusqlite::params_from_iter(params.iter())).map_err(|e| e.to_string())
}

/// Relies on rusqlite::Rows::next: the next result row, or None at the end of
/// the result set.
#[verifier::external_body]
pub(crate) fn rows_next<'a, 'stmt>(rows: &'a mut rusqlite::Rows<'stmt>) -> (r: Result<
    Option<&'a rusqlite::Row<'stmt>>,
    String,
>)
{
    rows.next().map_err(|e| e.to_string())
}

/// Relies on rusqlite::Row::get_ref: the value of column `i` flattened to its
/// string representation whatever its storage type — text as itself, integers
/// and reals in decimal; a NULL, a blob or an unreadable column reads as the
/// empty string.
#[verifier::external_body]
pub(crate) fn row_get_string(row: &rusqlite::Row<'_>, i: usize) -> (r: String)
{
    match row.get_ref(i) {
        Ok(rusqlite::types::ValueRef::Integer(v)) => v.to_string(),
        Ok(rusqlite::types::ValueRef::Real(v)) => v.to_string(),
        Ok(rusqlite::types::ValueRef::Text(t)) => String::from_utf8_lossy(t).into_owned(),
        Ok(rusqlite::types::ValueRef::Null) => String::new(),
        Ok(rusqlite::types::ValueRef::Blob(_)) => String::new(),
        Err(_) => String::new(),
    }
}

/// Relies on rusqlite::Row::get: the value of column `i` as an integer; an
/// absent or unreadable column reads as zero.
#[verifier::external_body]
pub(crate) fn row_get_i64(row: &rusqlite::Row<'_>, i: usize) -> (r: i64)
{
    row.get::<usize, i64>(i).unwrap_or_default()
}

/// Relies on rusqlite::Connection::execute running one `CREATE TABLE IF NOT
/// EXISTS` statement of the fixed schema: on success the named table exists
/// and no other table's contents change; creating the `users` or
/// `categories` table afresh leaves it empty, with exactly the fixed
/// definition and no trigger on it; a statement that finds the name taken
/// changes neither contents nor definitions, and a failed one changes
/// nothing.
#[verifier::external_body]
pub(crate) fn create_table(conn: &mut rusqlite::Connection, i: usize, sql: &str) -> (r: Result<(), String>)
    requires
        i < 9,
        sql@ == table_ddl(i as int),
    ensures
        r is Ok ==> db_tables(*final(conn)) == db_tables(*old(conn)).insert(table_name(i as int)),
        r is Err ==> db_tables(*final(conn)) == db_tables(*old(conn)),
        r is Ok && i == 0 && !db_tables(*old(conn)).contains(table_name(0)) ==> db_users(
            *final(conn),
        ) == (Map::<Seq<char>, UserRec>::empty()),
        !(r is Ok && i == 0 && !db_tables(*old(conn)).contains(table_name(0))) ==> db_users(
            *final(conn),
        ) == db_users(*old(conn)),
        r is Ok && i == 1 && !db_tables(*old(conn)).contains(table_name(1)) ==> db_categories(
            *final(conn),
        ) == (Map::<Seq<char>, (Seq<char>, Seq<char>)>::empty()),
        !(r is Ok && i == 1 && !db_tables(*old(conn)).contains(table_name(1))) ==> db_categories(
            *final(conn),
        ) == db_categories(*old(conn)),
        r is Ok && i == 0 && !db_tables(*old(conn)).contains(table_name(0)) ==> users_schema(
            *final(conn),
        ),
        !(r is Ok && i == 0 && !db_tables(*old(conn)).contains(table_name(0))) ==> users_schema(
            *final(conn),
        ) == users_schema(*old(conn)),
        r is Ok && i == 1 && !db_tables(*old(conn)).contains(table_name(1)) ==> categories_schema(
            *final(conn),
        ),
        !(r is Ok && i == 1 && !db_tables(*old(conn)).contains(table_name(1)))
            ==> categories_schema(*final(conn)) == categories_schema(*old(conn)),
{
    conn.execute(sql, ()).map(|_| ()).map_err(|e| e.to_string())
}

/// Relies on rusqlite::Connection::query_row with
/// `SELECT id, password_hash, full_name, role, is_active FROM users WHERE
/// username = ?`: it returns the one row keyed by that username — `username`
/// is UNIQUE — or the no-rows signal, and it changes nothing.
#[verifier::external_body]
pub(crate) fn user_lookup(conn: &rusqlite::Connection, username: &str) -> (r: Result<
    Option<UserRow>,
    String,
>)
    ensures
        r matches Ok(o) ==> (o is Some <==> db_users(*conn).contains_key(username@)),
        r matches Ok(o) && o matches Some(u) ==> u@ == db_users(*conn)[username@],
{
    let q = conn.query_row(
        "SELECT id, password_hash, full_name, role, is_active FROM users WHERE username = ?",
        [username],
        |row| Ok(crate::model::read_user_row(row)),
    );
    match q {
        Ok(u) => Ok(Some(u)),
        Err(rusqlite::Error::QueryReturnedNoRows) => Ok(None),
        Err(e) => Err(e.to_string()),
    }
}

/// Relies on rusqlite::Connection::execute with `INSERT INTO users (id,
/// username, password_hash, full_name, role, is_active, created_at) VALUES
/// (?, ?, ?, ?, ?, 1, ?)`: under the fixed users schema, on success exactly
/// that row is added, active, keyed by its UNIQUE username; a username
/// already present is refused; on failure the statement changes nothing,
/// and nothing outside the users table ever changes. An INSERT can run no
/// DDL, not even from a trigger, so the set of tables and every table's
/// definition persist on any store.
#[verifier::external_body]
pub(crate) fn user_insert(
    conn: &mut rusqlite::Connection,
    id: &str,
    username: &str,
    password_hash: &str,
    full_name: &str,
    role: &str,
    created_at: &str,
) -> (r: Result<(), String>)
    ensures
        users_schema(*old(conn)) && r is Ok ==> db_users(*final(conn)) == db_users(
            *old(conn),
        ).insert(
            username@,
            UserRec {
                id: id@,
                password_hash: password_hash@,
                full_name: full_name@,
                role: role@,
                is_active: true,
            },
        ),
        users_schema(*old(conn)) && db_users(*old(conn)).contains_key(username@) ==> r is Err,
        users_schema(*old(conn)) && r is Err ==> db_users(*final(conn)) == db_users(*old(conn)),
        users_schema(*old(conn)) ==> db_categories(*final(conn)) == db_categories(*old(conn)),
        db_tables(*final(conn)) == db_tables(*old(conn)),
        users_schema(*final(conn)) == users_schema(*old(conn)),
        categories_schema(*final(conn)) == categories_schema(*old(conn)),
{
    conn.execute(
        "INSERT INTO users (id, username, password_hash, full_name, role, is_active, created_at) VALUES (?, ?, ?, ?, ?, 1, ?)",
        [id, username, password_hash, full_name, role, created_at],
    ).map(|_| ()).map_err(|e| e.to_string())
}

/// Relies on rusqlite::Connection::query_row with `SELECT id FROM categories
/// WHERE name = ?`: it returns the id of the row a lookup by that name finds,
/// or the no-rows signal, and it changes nothing.
#[verifier::external_body]
pub(crate) fn category_lookup(conn: &rusqlite::Connection, name: &str) -> (r: Result<
    Option<String>,
    String,
>)
    ensures
        r matches Ok(o) ==> (o is Some <==> db_categories(*conn).contains_key(name@)),
        r matches Ok(o) && o matches Some(id) ==> id@ == db_categories(*conn)[name@].0,
{
    let q = conn.query_row(
        "SELECT id FROM categories WHERE name = ?",
        [name],
        |row| Ok(crate::model::first_column(row)),
    );
    match q {
        Ok(id) => Ok(Some(id)),
        Err(rusqlite::Error::QueryReturnedNoRows) => Ok(None),
        Err(e) => Err(e.to_string()),
    }
}

/// Relies on rusqlite::Connection::execute with `INSERT INTO categories (id,
/// name, description, created_at) VALUES (?, ?, ?, ?)`: under the fixed
/// categories schema, on success the named category exists, and when the
/// name was absent a lookup by it now yields exactly the inserted id and
/// description; on failure the statement changes nothing, and nothing
/// outside the categories table ever changes. An INSERT can run no DDL, not
/// even from a trigger, so the set of tables and every table's definition
/// persist on any store.
#[verifier::external_body]
pub(crate) fn category_insert(
    conn: &mut rusqlite::Connection,
    id: &str,
    name: &str,
    description: &str,
    created_at: &str,
) -> (r: Result<(), String>)
    ensures
        categories_schema(*old(conn)) && r is Ok && !db_categories(*old(conn)).contains_key(name@)
            ==> db_categories(*final(conn)) == db_categories(*old(conn)).insert(
            name@,
            (id@, description@),
        ),
        categories_schema(*old(conn)) && r is Ok ==> db_categories(*final(conn)).contains_key(
            name@,
        ),
        categories_schema(*old(conn)) && r is Err ==> db_categories(*final(conn)) == db_categories(
            *old(conn),
        ),
        categories_schema(*old(conn)) ==> db_users(*final(conn)) == db_users(*old(conn)),
        db_tables(*final(conn)) == db_tables(*old(conn)),
        users_schema(*final(conn)) == users_schema(*old(conn)),
        categories_schema(*final(conn)) == categories_schema(*old(conn)),
{
    conn.execute(
        "INSERT INTO categories (id, name, description, created_at) VALUES (?, ?, ?, ?)",
        [id, name, description, created_at],
    ).map(|_| ()).map_err(|e| e.to_string())
}

} // verus!
