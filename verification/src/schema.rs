//! The fixed schema and its idempotent bootstrap.
//!
//! Nine tables make up the store. Each is created with `CREATE TABLE IF NOT
//! EXISTS`, so running the bootstrap again adds nothing; a failure on one
//! table aborts the pass and reports that table's one-based index.

use vstd::prelude::*;
use crate::model::UserRec;
use crate::store::Database;
use crate::sqlite::categories_schema;
use crate::sqlite::db_categories;
use crate::sqlite::db_tables;
use crate::sqlite::db_users;
use crate::sqlite::users_schema;

verus! {

/// The name of the `i`-th table of the fixed schema.
pub open spec fn table_name(i: int) -> Seq<char> {
    if i == 0 {
        "users"@
    } else if i == 1 {
        "categories"@
    } else if i == 2 {
        "suppliers"@
    } else if i == 3 {
        "products"@
    } else if i == 4 {
        "customers"@
    } else if i == 5 {
        "sales"@
    } else if i == 6 {
        "sale_items"@
    } else if i == 7 {
        "expenses"@
    } else {
        "shifts"@
    }
}

/// The statement that creates the `i`-th table of the fixed schema.
pub open spec fn table_ddl(i: int) -> Seq<char> {
    if i == 0 {
        "CREATE TABLE IF NOT EXISTS users (id TEXT PRIMARY KEY, username TEXT UNIQUE NOT NULL, password_hash TEXT NOT NULL, full_name TEXT NOT NULL, role TEXT NOT NULL DEFAULT 'cashier', is_active INTEGER NOT NULL DEFAULT 1, created_at TEXT NOT NULL, updated_at TEXT)"@
    } else if i == 1 {
        "CREATE TABLE IF NOT EXISTS categories (id TEXT PRIMARY KEY, name TEXT NOT NULL, description TEXT, created_at TEXT NOT NULL, updated_at TEXT)"@
    } else if i == 2 {
        "CREATE TABLE IF NOT EXISTS suppliers (id TEXT PRIMARY KEY, name TEXT NOT NULL, contact_person TEXT, phone TEXT, email TEXT, address TEXT, created_at TEXT NOT NULL, updated_at TEXT)"@
    } else if i == 3 {
        "CREATE TABLE IF NOT EXISTS products (id TEXT PRIMARY KEY, name TEXT NOT NULL, sku TEXT UNIQUE NOT NULL, description TEXT, price_minor INTEGER NOT NULL, cost_minor INTEGER NOT NULL DEFAULT 0, stock INTEGER NOT NULL DEFAULT 0, low_stock_threshold INTEGER NOT NULL DEFAULT 5, category_id TEXT, supplier_id TEXT, is_active INTEGER NOT NULL DEFAULT 1, created_at TEXT NOT NULL, updated_at TEXT, FOREIGN KEY (category_id) REFERENCES categories(id), FOREIGN KEY (supplier_id) REFERENCES suppliers(id))"@
    } else if i == 4 {
        "CREATE TABLE IF NOT EXISTS customers (id TEXT PRIMARY KEY, name TEXT NOT NULL, phone TEXT, email TEXT, address TEXT, loyalty_points INTEGER NOT NULL DEFAULT 0, created_at TEXT NOT NULL, updated_at TEXT)"@
    } else if i == 5 {
        "CREATE TABLE IF NOT EXISTS sales (id TEXT PRIMARY KEY, sale_number TEXT UNIQUE NOT NULL, customer_id TEXT, user_id TEXT NOT NULL, total_minor INTEGER NOT NULL, tax_minor INTEGER NOT NULL DEFAULT 0, discount_minor INTEGER NOT NULL DEFAULT 0, payment_method TEXT NOT NULL, status TEXT NOT NULL DEFAULT 'completed', notes TEXT, created_at TEXT NOT NULL, updated_at TEXT, FOREIGN KEY (customer_id) REFERENCES customers(id), FOREIGN KEY (user_id) REFERENCES users(id))"@
    } else if i == 6 {
        "CREATE TABLE IF NOT EXISTS sale_items (id TEXT PRIMARY KEY, sale_id TEXT NOT NULL, product_id TEXT NOT NULL, quantity INTEGER NOT NULL, price_minor INTEGER NOT NULL, total_minor INTEGER NOT NULL, FOREIGN KEY (sale_id) REFERENCES sales(id), FOREIGN KEY (product_id) REFERENCES products(id))"@
    } else if i == 7 {
        "CREATE TABLE IF NOT EXISTS expenses (id TEXT PRIMARY KEY, category TEXT NOT NULL, description TEXT NOT NULL, amount_minor INTEGER NOT NULL, supplier_id TEXT, user_id TEXT NOT NULL, receipt_number TEXT, created_at TEXT NOT NULL, updated_at TEXT, FOREIGN KEY (supplier_id) REFERENCES suppliers(id), FOREIGN KEY (user_id) REFERENCES users(id))"@
    } else {
        "CREATE TABLE IF NOT EXISTS shifts (id TEXT PRIMARY KEY, user_id TEXT NOT NULL, start_time TEXT NOT NULL, end_time TEXT, starting_cash_minor INTEGER NOT NULL DEFAULT 0, ending_cash_minor INTEGER, total_sales_minor INTEGER NOT NULL DEFAULT 0, total_expenses_minor INTEGER NOT NULL DEFAULT 0, status TEXT NOT NULL DEFAULT 'open', notes TEXT, created_at TEXT NOT NULL, updated_at TEXT, FOREIGN KEY (user_id) REFERENCES users(id))"@
    }
}

/// The names of the first `k` tables of the fixed schema.
pub open spec fn names_upto(k: int) -> Set<Seq<char>>
    decreases k,
{
    if k <= 0 {
        Set::empty()
    } else {
        names_upto(k - 1).insert(table_name(k - 1))
    }
}

/// The names of all nine tables of the fixed schema.
pub open spec fn schema_tables() -> Set<Seq<char>> {
    names_upto(9)
}

/// The one-based index of the `i`-th table, as the failure report writes it.
pub open spec fn table_index_label(i: int) -> Seq<char> {
    if i == 0 {
        "1"@
    } else if i == 1 {
        "2"@
    } else if i == 2 {
        "3"@
    } else if i == 3 {
        "4"@
    } else if i == 4 {
        "5"@
    } else if i == 5 {
        "6"@
    } else if i == 6 {
        "7"@
    } else if i == 7 {
        "8"@
    } else {
        "9"@
    }
}

/// The message bootstrap reports when creating the `i`-th table fails for the
/// reason `cause`.
pub open spec fn bootstrap_err_msg(i: int, cause: Seq<char>) -> Seq<char> {
    "Failed to create table "@ + table_index_label(i) + ": "@ + cause
}

/// What bootstrap leaves in the `users` table: untouched when the table
/// already existed, empty when it was created afresh.
pub open spec fn bootstrap_users(t0: Set<Seq<char>>, u0: Map<Seq<char>, UserRec>) -> Map<
    Seq<char>,
    UserRec,
> {
    if t0.contains(table_name(0)) {
        u0
    } else {
        Map::empty()
    }
}

/// What bootstrap leaves in the `categories` table.
pub open spec fn bootstrap_categories(
    t0: Set<Seq<char>>,
    c0: Map<Seq<char>, (Seq<char>, Seq<char>)>,
) -> Map<Seq<char>, (Seq<char>, Seq<char>)> {
    if t0.contains(table_name(1)) {
        c0
    } else {
        Map::empty()
    }
}

/// The statement that creates the `i`-th table of the fixed schema.
pub(crate) fn table_sql(i: usize) -> (r: &'static str)
    requires
        i < 9,
    ensures
        r@ == table_ddl(i as int),
{
    if i == 0 {
        "CREATE TABLE IF NOT EXISTS users (id TEXT PRIMARY KEY, username TEXT UNIQUE NOT NULL, password_hash TEXT NOT NULL, full_name TEXT NOT NULL, role TEXT NOT NULL DEFAULT 'cashier', is_active INTEGER NOT NULL DEFAULT 1, created_at TEXT NOT NULL, updated_at TEXT)"
    } else if i == 1 {
        "CREATE TABLE IF NOT EXISTS categories (id TEXT PRIMARY KEY, name TEXT NOT NULL, description TEXT, created_at TEXT NOT NULL, updated_at TEXT)"
    } else if i == 2 {
        "CREATE TABLE IF NOT EXISTS suppliers (id TEXT PRIMARY KEY, name TEXT NOT NULL, contact_person TEXT, phone TEXT, email TEXT, address TEXT, created_at TEXT NOT NULL, updated_at TEXT)"
    } else if i == 3 {
        "CREATE TABLE IF NOT EXISTS products (id TEXT PRIMARY KEY, name TEXT NOT NULL, sku TEXT UNIQUE NOT NULL, description TEXT, price_minor INTEGER NOT NULL, cost_minor INTEGER NOT NULL DEFAULT 0, stock INTEGER NOT NULL DEFAULT 0, low_stock_threshold INTEGER NOT NULL DEFAULT 5, category_id TEXT, supplier_id TEXT, is_active INTEGER NOT NULL DEFAULT 1, created_at TEXT NOT NULL, updated_at TEXT, FOREIGN KEY (category_id) REFERENCES categories(id), FOREIGN KEY (supplier_id) REFERENCES suppliers(id))"
    } else if i == 4 {
        "CREATE TABLE IF NOT EXISTS customers (id TEXT PRIMARY KEY, name TEXT NOT NULL, phone TEXT, email TEXT, address TEXT, loyalty_points INTEGER NOT NULL DEFAULT 0, created_at TEXT NOT NULL, updated_at TEXT)"
    } else if i == 5 {
        "CREATE TABLE IF NOT EXISTS sales (id TEXT PRIMARY KEY, sale_number TEXT UNIQUE NOT NULL, customer_id TEXT, user_id TEXT NOT NULL, total_minor INTEGER NOT NULL, tax_minor INTEGER NOT NULL DEFAULT 0, discount_minor INTEGER NOT NULL DEFAULT 0, payment_method TEXT NOT NULL, status TEXT NOT NULL DEFAULT 'completed', notes TEXT, created_at TEXT NOT NULL, updated_at TEXT, FOREIGN KEY (customer_id) REFERENCES customers(id), FOREIGN KEY (user_id) REFERENCES users(id))"
    } else if i == 6 {
        "CREATE TABLE IF NOT EXISTS sale_items (id TEXT PRIMARY KEY, sale_id TEXT NOT NULL, product_id TEXT NOT NULL, quantity INTEGER NOT NULL, price_minor INTEGER NOT NULL, total_minor INTEGER NOT NULL, FOREIGN KEY (sale_id) REFERENCES sales(id), FOREIGN KEY (product_id) REFERENCES products(id))"
    } else if i == 7 {
        "CREATE TABLE IF NOT EXISTS expenses (id TEXT PRIMARY KEY, category TEXT NOT NULL, description TEXT NOT NULL, amount_minor INTEGER NOT NULL, supplier_id TEXT, user_id TEXT NOT NULL, receipt_number TEXT, created_at TEXT NOT NULL, updated_at TEXT, FOREIGN KEY (supplier_id) REFERENCES suppliers(id), FOREIGN KEY (user_id) REFERENCES users(id))"
    } else {
        "CREATE TABLE IF NOT EXISTS shifts (id TEXT PRIMARY KEY, user_id TEXT NOT NULL, start_time TEXT NOT NULL, end_time TEXT, starting_cash_minor INTEGER NOT NULL DEFAULT 0, ending_cash_minor INTEGER, total_sales_minor INTEGER NOT NULL DEFAULT 0, total_expenses_minor INTEGER NOT NULL DEFAULT 0, status TEXT NOT NULL DEFAULT 'open', notes TEXT, created_at TEXT NOT NULL, updated_at TEXT, FOREIGN KEY (user_id) REFERENCES users(id))"
    }
}

/// The one-based index of the `i`-th table, as the failure report writes it.
fn table_label(i: usize) -> (r: &'static str)
    requires
        i < 9,
    ensures
        r@ == table_index_label(i as int),
{
    if i == 0 {
        "1"
    } else if i == 1 {
        "2"
    } else if i == 2 {
        "3"
    } else if i == 3 {
        "4"
    } else if i == 4 {
        "5"
    } else if i == 5 {
        "6"
    } else if i == 6 {
        "7"
    } else if i == 7 {
        "8"
    } else {
        "9"
    }
}

/// Creates every table of the fixed schema, each with `CREATE TABLE IF NOT
/// EXISTS`: tables already present are kept with their contents and their
/// definitions; a fresh `users` or `categories` table carries the fixed
/// definition. A failure at the `i`-th statement aborts the pass with the
/// one-based index of that table: the earlier tables stand, the later ones
/// were not created, and no table's contents changed beyond that.
pub fn bootstrap(db: &mut Database) -> (r: Result<(), String>)
    ensures
        r is Ok ==> db_tables(final(db).conn) == db_tables(old(db).conn).union(schema_tables()),
        r is Ok ==> db_users(final(db).conn) == bootstrap_users(
            db_tables(old(db).conn),
            db_users(old(db).conn),
        ),
        r is Ok ==> db_categories(final(db).conn) == bootstrap_categories(
            db_tables(old(db).conn),
            db_categories(old(db).conn),
        ),
        r is Ok && (!db_tables(old(db).conn).contains(table_name(0)) || users_schema(
            old(db).conn,
        )) ==> users_schema(final(db).conn),
        r is Ok && (!db_tables(old(db).conn).contains(table_name(1)) || categories_schema(
            old(db).conn,
        )) ==> categories_schema(final(db).conn),
        r matches Err(m) ==> exists|i: int, c: Seq<char>|
            0 <= i < 9 && m@ == bootstrap_err_msg(i, c) && db_tables(final(db).conn) == db_tables(
                old(db).conn,
            ).union(names_upto(i)) && db_users(final(db).conn) == (if i == 0 {
                db_users(old(db).conn)
            } else {
                bootstrap_users(db_tables(old(db).conn), db_users(old(db).conn))
            }) && db_categories(final(db).conn) == (if i <= 1 {
                db_categories(old(db).conn)
            } else {
                bootstrap_categories(db_tables(old(db).conn), db_categories(old(db).conn))
            }),
{
    proof {
        assert(db_tables(db.conn).union(names_upto(0)) =~= db_tables(db.conn));
    }
    let mut k: usize = 0;
    while k < 9
        invariant
            k <= 9,
            db_tables(db.conn) == db_tables(old(db).conn).union(names_upto(k as int)),
            db_users(db.conn) == (if k == 0 {
                db_users(old(db).conn)
            } else {
                bootstrap_users(db_tables(old(db).conn), db_users(old(db).conn))
            }),
            db_categories(db.conn) == (if k <= 1 {
                db_categories(old(db).conn)
            } else {
                bootstrap_categories(db_tables(old(db).conn), db_categories(old(db).conn))
            }),
            k == 0 ==> users_schema(db.conn) == users_schema(old(db).conn),
            k >= 1 && !db_tables(old(db).conn).contains(table_name(0)) ==> users_schema(db.conn),
            k >= 1 && db_tables(old(db).conn).contains(table_name(0)) ==> users_schema(db.conn)
                == users_schema(old(db).conn),
            k <= 1 ==> categories_schema(db.conn) == categories_schema(old(db).conn),
            k >= 2 && !db_tables(old(db).conn).contains(table_name(1)) ==> categories_schema(
                db.conn,
            ),
            k >= 2 && db_tables(old(db).conn).contains(table_name(1)) ==> categories_schema(
                db.conn,
            ) == categories_schema(old(db).conn),
        decreases 9 - k,
    {
        let sql = table_sql(k);
        let ghost pre_tables = db_tables(db.conn);
        match crate::sqlite::create_table(&mut db.conn, k, sql) {
            Ok(_) => {
                proof {
                    let kk = k as int;
                    let t0 = db_tables(old(db).conn);
                    assert(names_upto(kk + 1) == names_upto(kk).insert(table_name(kk)));
                    assert(t0.union(names_upto(kk)).insert(table_name(kk)) =~= t0.union(
                        names_upto(kk + 1),
                    ));
                    if k == 1 {
                        reveal_strlit("users");
                        reveal_strlit("categories");
                        assert(("users"@).len() == 5);
                        assert(("categories"@).len() == 10);
                        assert(table_name(1) != table_name(0));
                        assert(names_upto(0) =~= Set::empty());
                        assert(names_upto(1) =~= Set::empty().insert(table_name(0)));
                        assert(pre_tables.contains(table_name(1)) == t0.contains(table_name(1)));
                    }
                }
                k = k + 1;
            },
            Err(e) => {
                let label = table_label(k);
                let mut m = String::from_str("Failed to create table ");
                m.append(label);
                m.append(": ");
                m.append(e.as_str());
                proof {
                    let kk = k as int;
                    assert(kk < 9 && m@ == bootstrap_err_msg(kk, e@) && db_tables(db.conn)
                        == db_tables(old(db).conn).union(names_upto(kk)) && db_users(db.conn) == (
                    if kk == 0 {
                        db_users(old(db).conn)
                    } else {
                        bootstrap_users(db_tables(old(db).conn), db_users(old(db).conn))
                    }) && db_categories(db.conn) == (if kk <= 1 {
                        db_categories(old(db).conn)
                    } else {
                        bootstrap_categories(db_tables(old(db).conn), db_categories(old(db).conn))
                    }));
                }
                return Err(m);
            },
        }
    }
    Ok(())
}

/// Bootstrap is idempotent on the schema: running the fixed table creation a
/// second time leaves exactly the tables the first run left.
pub proof fn lemma_bootstrap_idempotent(t0: Set<Seq<char>>)
    ensures
        t0.union(schema_tables()).union(schema_tables()) == t0.union(schema_tables()),
{
    assert(t0.union(schema_tables()).union(schema_tables()) =~= t0.union(schema_tables()));
}

/// Every table of the fixed schema is among the first `k` names once its
/// index is below `k`.
pub proof fn lemma_names_upto_contains(i: int, k: int)
    requires
        0 <= i < k,
    ensures
        names_upto(k).contains(table_name(i)),
    decreases k,
{
    if i < k - 1 {
        lemma_names_upto_contains(i, k - 1);
    }
}

/// After one bootstrap the schema tables are present, so a later bootstrap
/// pass keeps the contents of the `users` and `categories` tables.
pub proof fn lemma_bootstrap_preserves_after_first(
    t0: Set<Seq<char>>,
    u: Map<Seq<char>, UserRec>,
    c: Map<Seq<char>, (Seq<char>, Seq<char>)>,
)
    ensures
        bootstrap_users(t0.union(schema_tables()), u) == u,
        bootstrap_categories(t0.union(schema_tables()), c) == c,
{
    lemma_names_upto_contains(0, 9);
    lemma_names_upto_contains(1, 9);
}

} // verus!
