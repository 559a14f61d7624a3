use glasspos::Database;
use glasspos::execute_query;
use glasspos::run_query;

fn fresh_db() -> Database {
    Database::new_in_memory().expect("in-memory store should open")
}

fn booted_db() -> Database {
    let mut db = fresh_db();
    glasspos::bootstrap(&mut db).expect("bootstrap should succeed");
    db
}

fn table_names(db: &mut Database) -> Vec<String> {
    let rows = run_query(
        db,
        "SELECT name FROM sqlite_master WHERE type = 'table' ORDER BY name",
        Vec::new(),
    )
    .expect("listing tables should succeed");
    rows.into_iter().map(|r| r[0].clone()).collect()
}

#[test]
fn bootstrap_creates_all_nine_tables() {
    let mut db = booted_db();
    let names = table_names(&mut db);
    let expected = vec![
        "categories",
        "customers",
        "expenses",
        "products",
        "sale_items",
        "sales",
        "shifts",
        "suppliers",
        "users",
    ];
    assert_eq!(names, expected);
}

#[test]
fn bootstrap_twice_same_schema_no_error() {
    let mut db = booted_db();
    let first = table_names(&mut db);
    glasspos::bootstrap(&mut db).expect("second bootstrap should succeed");
    let second = table_names(&mut db);
    assert_eq!(first, second);
}

#[test]
fn bootstrap_keeps_existing_rows() {
    let mut db = booted_db();
    execute_query(
        &mut db,
        "INSERT INTO categories (id, name, description, created_at) VALUES (?, ?, ?, ?)",
        vec![
            "c1".to_string(),
            "Drinks".to_string(),
            "".to_string(),
            "2024-01-01T00:00:00Z".to_string(),
        ],
    )
    .expect("insert should succeed");
    glasspos::bootstrap(&mut db).expect("second bootstrap should succeed");
    let rows = run_query(
        &mut db,
        "SELECT COUNT(*) FROM categories WHERE name = 'Drinks'",
        Vec::new(),
    )
    .expect("count should succeed");
    assert_eq!(rows[0][0], "1");
}

#[test]
fn bootstrap_failure_reports_the_table_index() {
    let mut db = fresh_db();
    // An index stolen onto the name "products" makes the fourth table
    // creation fail; the first three still go through.
    execute_query(&mut db, "CREATE TABLE scratch (x INTEGER)", Vec::new())
        .expect("scratch table should be created");
    execute_query(&mut db, "CREATE INDEX products ON scratch (x)", Vec::new())
        .expect("index should be created");
    let e = glasspos::bootstrap(&mut db).err().expect("bootstrap should fail");
    assert!(e.starts_with("Failed to create table 4: "), "unexpected message: {e}");
    let names = table_names(&mut db);
    assert!(names.contains(&"users".to_string()));
    assert!(names.contains(&"categories".to_string()));
    assert!(names.contains(&"suppliers".to_string()));
}

#[test]
fn execute_reports_affected_row_count() {
    let mut db = booted_db();
    for (id, name) in [("c1", "One"), ("c2", "Two"), ("c3", "Three")] {
        execute_query(
            &mut db,
            "INSERT INTO categories (id, name, created_at) VALUES (?, ?, ?)",
            vec![id.to_string(), name.to_string(), "2024-01-01T00:00:00Z".to_string()],
        )
        .expect("insert should succeed");
    }
    let updated = db
        .execute("UPDATE categories SET description = 'x'", &Vec::new())
        .expect("update should succeed");
    assert_eq!(updated, 3);
    let deleted = db
        .execute("DELETE FROM categories WHERE id = 'c2'", &Vec::new())
        .expect("delete should succeed");
    assert_eq!(deleted, 1);
}

#[test]
fn execute_query_acknowledges_success() {
    let mut db = booted_db();
    let ack = execute_query(
        &mut db,
        "INSERT INTO customers (id, name, created_at) VALUES (?, ?, ?)",
        vec!["u1".to_string(), "Ada".to_string(), "2024-01-01T00:00:00Z".to_string()],
    )
    .expect("insert should succeed");
    assert_eq!(ack, "Query executed successfully");
}

#[test]
fn execute_query_surfaces_store_errors() {
    let mut db = booted_db();
    let r = execute_query(&mut db, "INSERT INTO no_such_table VALUES (1)", Vec::new());
    assert!(r.is_err());
}

#[test]
fn run_query_matrix_is_rectangular_with_mixed_types() {
    let mut db = booted_db();
    // loyalty_points is an integer column; phone is text; both flatten to
    // strings in the matrix.
    execute_query(
        &mut db,
        "INSERT INTO customers (id, name, phone, loyalty_points, created_at) VALUES (?, ?, ?, 5, ?)",
        vec![
            "u1".to_string(),
            "Ada".to_string(),
            "555-1".to_string(),
            "2024-01-01T00:00:00Z".to_string(),
        ],
    )
    .expect("insert should succeed");
    execute_query(
        &mut db,
        "INSERT INTO customers (id, name, loyalty_points, created_at) VALUES (?, ?, 0, ?)",
        vec!["u2".to_string(), "Grace".to_string(), "2024-01-01T00:00:00Z".to_string()],
    )
    .expect("insert should succeed");
    let rows = run_query(
        &mut db,
        "SELECT id, name, phone, loyalty_points FROM customers ORDER BY id",
        Vec::new(),
    )
    .expect("query should succeed");
    assert_eq!(rows.len(), 2);
    for row in &rows {
        assert_eq!(row.len(), 4);
    }
    assert_eq!(rows[0][3], "5");
    assert_eq!(rows[1][3], "0");
    // An absent text column reads as the empty string.
    assert_eq!(rows[1][2], "");
}

#[test]
fn run_query_empty_result_has_no_rows() {
    let mut db = booted_db();
    let rows = run_query(&mut db, "SELECT id FROM users WHERE 1 = 0", Vec::new())
        .expect("query should succeed");
    assert_eq!(rows.len(), 0);
}

#[test]
fn run_query_binds_positional_parameters() {
    let mut db = booted_db();
    for (id, name) in [("c1", "One"), ("c2", "Two")] {
        execute_query(
            &mut db,
            "INSERT INTO categories (id, name, created_at) VALUES (?, ?, ?)",
            vec![id.to_string(), name.to_string(), "2024-01-01T00:00:00Z".to_string()],
        )
        .expect("insert should succeed");
    }
    let rows = run_query(
        &mut db,
        "SELECT id FROM categories WHERE name = ?",
        vec!["Two".to_string()],
    )
    .expect("query should succeed");
    assert_eq!(rows.len(), 1);
    assert_eq!(rows[0][0], "c2");
}

#[test]
fn interleaved_inserts_lose_no_writes() {
    // Two callers take turns on the one store handle; exclusive access is
    // what the handle's type enforces. Every acknowledged insert must be
    // there at the end, duplicates must fail, and reads in between must not
    // disturb the writes.
    let mut db = booted_db();
    let mut acknowledged = 0;
    for i in 0..20 {
        let caller = if i % 2 == 0 { "A" } else { "B" };
        // Every fourth sale number collides with the one before it.
        let sale_number = format!("S-{}", i - (i % 4 == 3) as i32);
        let r = execute_query(
            &mut db,
            "INSERT INTO sales (id, sale_number, user_id, total_minor, payment_method, created_at) VALUES (?, ?, ?, 100, 'cash', ?)",
            vec![
                format!("sale-{i}"),
                sale_number,
                format!("user-{caller}"),
                "2024-01-01T00:00:00Z".to_string(),
            ],
        );
        if r.is_ok() {
            acknowledged += 1;
        }
        let rows = run_query(&mut db, "SELECT COUNT(*) FROM sales", Vec::new())
            .expect("count should succeed");
        assert_eq!(rows[0][0], acknowledged.to_string());
    }
    assert_eq!(acknowledged, 15);
    let rows = run_query(&mut db, "SELECT COUNT(*) FROM sales", Vec::new())
        .expect("count should succeed");
    assert_eq!(rows[0][0], "15");
}
