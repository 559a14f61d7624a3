//! Mathematical model of the store's contents, and the exec-level row types
//! the library reads out of it.

use vstd::prelude::*;

verus! {

/// One row of the `users` table, as the contracts speak of it.
pub ghost struct UserRec {
    pub id: Seq<char>,
    pub password_hash: Seq<char>,
    pub full_name: Seq<char>,
    pub role: Seq<char>,
    pub is_active: bool,
}

/// One row of the `users` table, as the executable code reads it: the
/// `is_active` column is the store's integer flag, nonzero meaning active.
pub struct UserRow {
    pub id: String,
    pub password_hash: String,
    pub full_name: String,
    pub role: String,
    pub is_active: i64,
}

impl View for UserRow {
    type V = UserRec;

    open spec fn view(&self) -> UserRec {
        UserRec {
            id: self.id@,
            password_hash: self.password_hash@,
            full_name: self.full_name@,
            role: self.role@,
            is_active: self.is_active != 0,
        }
    }
}

/// A query result is rectangular when every row has the same number of
/// columns.
pub open spec fn rectangular(m: Seq<Vec<String>>) -> bool {
    forall|i: int, j: int|
        0 <= i < m.len() && 0 <= j < m.len() ==> m[i]@.len() == m[j]@.len()
}

/// Whether `m` begins with `p`: some tail follows the prefix.
pub open spec fn prefixed(m: Seq<char>, p: Seq<char>) -> bool {
    exists|c: Seq<char>| m == #[trigger] (p + c)
}

/// Reads the columns of the user-lookup statement into a `UserRow`.
pub(crate) fn read_user_row(row: &rusqlite::Row<'_>) -> UserRow {
    UserRow {
        id: crate::sqlite::row_get_string(row, 0),
        password_hash: crate::sqlite::row_get_string(row, 1),
        full_name: crate::sqlite::row_get_string(row, 2),
        role: crate::sqlite::row_get_string(row, 3),
        is_active: crate::sqlite::row_get_i64(row, 4),
    }
}

/// Reads the first column of a result row as a string.
pub(crate) fn first_column(row: &rusqlite::Row<'_>) -> String {
    crate::sqlite::row_get_string(row, 0)
}

} // verus!
