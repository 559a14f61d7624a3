use glasspos::Database;
use glasspos::NewUser;
use glasspos::UserLogin;
use glasspos::create_user;
use glasspos::init_database;
use glasspos::login_user;
use glasspos::run_query;

fn seeded_db() -> Database {
    let mut db = Database::new_in_memory().expect("in-memory store should open");
    init_database(&mut db).expect("startup should succeed");
    db
}

fn login(db: &Database, username: &str, password: &str) -> Result<glasspos::UserProfile, String> {
    login_user(
        db,
        UserLogin { username: username.to_string(), password: password.to_string() },
    )
}

fn new_user(id: &str, username: &str, password: &str, full_name: &str, role: Option<&str>) -> NewUser {
    NewUser {
        id: id.to_string(),
        username: username.to_string(),
        password: password.to_string(),
        full_name: full_name.to_string(),
        role: role.map(|r| r.to_string()),
    }
}

#[test]
fn login_with_seeded_default_returns_admin_role() {
    let db = seeded_db();
    let p = login(&db, "admin", "admin123").expect("default login should succeed");
    assert_eq!(p.id, "admin-001");
    assert_eq!(p.username, "admin");
    assert_eq!(p.full_name, "System Administrator");
    assert_eq!(p.role, "admin");
}

#[test]
fn login_with_wrong_password_fails() {
    let db = seeded_db();
    let r = login(&db, "admin", "admin124");
    assert_eq!(r.err().unwrap(), "Invalid username or password");
}

#[test]
fn login_with_unknown_username_fails() {
    let db = seeded_db();
    let r = login(&db, "nobody", "admin123");
    assert_eq!(r.err().unwrap(), "User not found");
}

#[test]
fn login_with_disabled_account_fails_despite_correct_password() {
    let mut db = seeded_db();
    create_user(&mut db, new_user("u-1", "carol", "pw12345", "Carol C", Some("cashier")))
        .expect("creation should succeed");
    glasspos::execute_query(
        &mut db,
        "UPDATE users SET is_active = 0 WHERE username = ?",
        vec!["carol".to_string()],
    )
    .expect("update should succeed");
    let r = login(&db, "carol", "pw12345");
    assert_eq!(r.err().unwrap(), "Account is disabled");
}

#[test]
fn create_user_rejects_missing_fields() {
    let mut db = seeded_db();
    let cases = vec![
        new_user("", "dave", "pw", "Dave D", None),
        new_user("u-2", "", "pw", "Dave D", None),
        new_user("u-2", "dave", "", "Dave D", None),
        new_user("u-2", "dave", "pw", "", None),
    ];
    for c in cases {
        let r = create_user(&mut db, c);
        assert_eq!(r.err().unwrap(), "Missing required fields");
    }
    let rows = run_query(&mut db, "SELECT COUNT(*) FROM users", Vec::new())
        .expect("count should succeed");
    assert_eq!(rows[0][0], "1");
}

#[test]
fn create_user_acknowledges_and_persists() {
    let mut db = seeded_db();
    let ack = create_user(&mut db, new_user("u-3", "erin", "secret9", "Erin E", Some("cashier")))
        .expect("creation should succeed");
    assert_eq!(ack, "User created successfully");
    let p = login(&db, "erin", "secret9").expect("new user should log in");
    assert_eq!(p.id, "u-3");
    assert_eq!(p.role, "cashier");
}

#[test]
fn create_user_never_persists_the_plaintext_password() {
    let mut db = seeded_db();
    create_user(&mut db, new_user("u-4", "frank", "plainpw", "Frank F", None))
        .expect("creation should succeed");
    let rows = run_query(
        &mut db,
        "SELECT password_hash FROM users WHERE username = ?",
        vec!["frank".to_string()],
    )
    .expect("query should succeed");
    let stored = rows[0][0].clone();
    assert_ne!(stored, "plainpw");
    assert_eq!(stored.len(), 60);
    assert!(bcrypt::verify("plainpw", &stored).expect("hash should parse"));
    assert!(!bcrypt::verify("otherpw", &stored).expect("hash should parse"));
}

#[test]
fn login_decision_rules_on_the_looked_up_row() {
    let make_row = |hash: &str, active: i64| glasspos::model::UserRow {
        id: "u-1".to_string(),
        password_hash: hash.to_string(),
        full_name: "Kim K".to_string(),
        role: "cashier".to_string(),
        is_active: active,
    };
    let login = |pw: &str| UserLogin { username: "kim".to_string(), password: pw.to_string() };
    let hash = bcrypt::hash("pw12345", bcrypt::DEFAULT_COST).expect("hashing should succeed");

    let r = glasspos::login_decision(None, login("pw12345"));
    assert_eq!(r.err().unwrap(), "User not found");

    let r = glasspos::login_decision(Some(make_row(&hash, 0)), login("pw12345"));
    assert_eq!(r.err().unwrap(), "Account is disabled");

    let r = glasspos::login_decision(Some(make_row(&hash, 1)), login("wrong"));
    assert_eq!(r.err().unwrap(), "Invalid username or password");

    let r = glasspos::login_decision(Some(make_row("not-a-hash", 1)), login("pw12345"));
    assert!(r.is_err());

    let p = glasspos::login_decision(Some(make_row(&hash, 1)), login("pw12345"))
        .expect("matching credentials should log in");
    assert_eq!(p.id, "u-1");
    assert_eq!(p.username, "kim");
    assert_eq!(p.full_name, "Kim K");
    assert_eq!(p.role, "cashier");
}

#[test]
fn create_user_defaults_the_role_to_cashier() {
    let mut db = seeded_db();
    create_user(&mut db, new_user("u-5", "gabi", "pw12345", "Gabi G", None))
        .expect("creation should succeed");
    let rows = run_query(
        &mut db,
        "SELECT role FROM users WHERE username = ?",
        vec!["gabi".to_string()],
    )
    .expect("query should succeed");
    assert_eq!(rows[0][0], "cashier");
}

#[test]
fn create_user_with_duplicate_username_fails() {
    let mut db = seeded_db();
    create_user(&mut db, new_user("u-6", "hank", "pw12345", "Hank H", None))
        .expect("creation should succeed");
    let r = create_user(&mut db, new_user("u-7", "hank", "pw12345", "Hank Again", None));
    assert!(r.is_err());
    let rows = run_query(&mut db, "SELECT COUNT(*) FROM users WHERE username = 'hank'", Vec::new())
        .expect("count should succeed");
    assert_eq!(rows[0][0], "1");
}

#[test]
fn get_users_lists_every_user_without_the_hash_column() {
    let mut db = seeded_db();
    create_user(&mut db, new_user("u-8", "iris", "pw12345", "Iris I", None))
        .expect("creation should succeed");
    let rows = glasspos::get_users(&mut db).expect("listing should succeed");
    assert_eq!(rows.len(), 2);
    for row in &rows {
        assert_eq!(row.len(), 6);
    }
    assert!(rows.iter().any(|r| r[1] == "admin"));
    assert!(rows.iter().any(|r| r[1] == "iris" && r[2] == "Iris I" && r[3] == "cashier"));
}

#[test]
fn login_with_corrupt_stored_hash_fails() {
    let mut db = seeded_db();
    glasspos::execute_query(
        &mut db,
        "INSERT INTO users (id, username, password_hash, full_name, role, is_active, created_at) VALUES (?, 'jo', 'not-a-hash', 'Jo J', 'cashier', 1, ?)",
        vec!["u-9".to_string(), "2024-01-01T00:00:00Z".to_string()],
    )
    .expect("insert should succeed");
    let e = login(&db, "jo", "whatever").err().unwrap();
    // The verifier's own message comes through verbatim.
    assert!(e.starts_with("Invalid hash:"), "unexpected message: {e}");
}

#[test]
fn login_error_does_not_leak_the_stored_hash() {
    let db = seeded_db();
    let e = login(&db, "admin", "wrong").err().unwrap();
    assert!(!e.contains("$2"));
}
