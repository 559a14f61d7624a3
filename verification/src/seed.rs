//! Default-data seeding and startup.
//!
//! After bootstrap the store must hold exactly one administrator account and
//! one fallback category. Each seed pass checks for the row first and only
//! inserts when it is absent, so repeated startups never duplicate either.
//! The contracts speak under the fixed schema (`users_schema`,
//! `categories_schema`), which bootstrap establishes whenever it creates the
//! two tables itself.

use vstd::prelude::*;
use crate::clock;
use crate::crypto;
use crate::crypto::bcrypt_verifies;
use crate::model::UserRec;
use crate::model::prefixed;
use crate::schema;
use crate::sqlite;
use crate::sqlite::categories_schema;
use crate::sqlite::db_categories;
use crate::sqlite::db_tables;
use crate::sqlite::db_users;
use crate::sqlite::users_schema;
use crate::store::Database;

verus! {

/// The seeded administrator row: fixed identifier and profile, active, with
/// some salted hash of the documented default password.
pub open spec fn seeded_admin(h: Seq<char>) -> UserRec {
    UserRec {
        id: "admin-001"@,
        password_hash: h,
        full_name: "System Administrator"@,
        role: "admin"@,
        is_active: true,
    }
}

/// How one admin seed pass relates the users table before and after: a
/// present "admin" row is kept untouched; an absent one is inserted with a
/// 60-character salted hash that verifies against the documented default
/// password.
pub open spec fn admin_seed_step(
    pre: Map<Seq<char>, UserRec>,
    post: Map<Seq<char>, UserRec>,
) -> bool {
    if pre.contains_key("admin"@) {
        post == pre
    } else {
        exists|h: Seq<char>|
            #[trigger] bcrypt_verifies("admin123"@, h) && h.len() == 60 && post == pre.insert(
                "admin"@,
                seeded_admin(h),
            )
    }
}

/// How one category seed pass relates the categories table before and after.
pub open spec fn category_seed_step(
    pre: Map<Seq<char>, (Seq<char>, Seq<char>)>,
    post: Map<Seq<char>, (Seq<char>, Seq<char>)>,
) -> bool {
    if pre.contains_key("General"@) {
        post == pre
    } else {
        post == pre.insert("General"@, ("cat-001"@, "Default category for products"@))
    }
}

/// What one seed attempt may leave: the step ran, or it reported a failure
/// and changed nothing.
pub open spec fn admin_seed_outcome(
    pre: Map<Seq<char>, UserRec>,
    post: Map<Seq<char>, UserRec>,
) -> bool {
    admin_seed_step(pre, post) || post == pre
}

/// What one category seed attempt may leave.
pub open spec fn category_seed_outcome(
    pre: Map<Seq<char>, (Seq<char>, Seq<char>)>,
    post: Map<Seq<char>, (Seq<char>, Seq<char>)>,
) -> bool {
    category_seed_step(pre, post) || post == pre
}

/// Whether a startup's seeds run under the fixed schema: each of the two
/// tables either was not there before bootstrap — which then creates it with
/// the fixed definition — or already carried it.
pub open spec fn schema_ready(t0: Set<Seq<char>>, us: bool, cs: bool) -> bool {
    (!t0.contains(schema::table_name(0)) || us) && (!t0.contains(schema::table_name(1)) || cs)
}

/// Ensures the "admin" account exists: a no-op when a row with that username
/// is already present, otherwise one insert of the fixed administrator row
/// with a freshly salted hash of the documented default password. Under the
/// fixed schema nothing else in the store changes, and a failure changes
/// nothing at all; a failure's message names the step that failed.
pub fn insert_default_admin(db: &mut Database) -> (r: Result<(), String>)
    ensures
        users_schema(old(db).conn) && r is Ok ==> admin_seed_step(
            db_users(old(db).conn),
            db_users(final(db).conn),
        ),
        users_schema(old(db).conn) && r is Ok ==> db_users(final(db).conn).contains_key("admin"@),
        users_schema(old(db).conn) && db_users(old(db).conn).contains_key("admin"@) && r is Ok
            ==> *final(db) == *old(db),
        users_schema(old(db).conn) && r is Err ==> db_users(final(db).conn) == db_users(
            old(db).conn,
        ),
        users_schema(old(db).conn) ==> db_categories(final(db).conn) == db_categories(
            old(db).conn,
        ),
        db_tables(final(db).conn) == db_tables(old(db).conn),
        users_schema(final(db).conn) == users_schema(old(db).conn),
        categories_schema(final(db).conn) == categories_schema(old(db).conn),
        r matches Err(m) ==> prefixed(m@, "Failed to check for existing admin: "@) || prefixed(
            m@,
            "Failed to hash password: "@,
        ) || prefixed(m@, "Failed to insert admin user: "@),
{
    match sqlite::user_lookup(&db.conn, "admin") {
        Ok(Some(_)) => Ok(()),
        Ok(None) => {
            let password_hash = match crypto::hash_password("admin123") {
                Ok(h) => h,
                Err(e) => {
                    let mut m = String::from_str("Failed to hash password: ");
                    m.append(e.as_str());
                    proof {
                        assert(prefixed(m@, "Failed to hash password: "@)) by {
                            assert(m@ == "Failed to hash password: "@ + e@);
                        }
                    }
                    return Err(m);
                },
            };
            let created_at = clock::now_rfc3339();
            match sqlite::user_insert(
                &mut db.conn,
                "admin-001",
                "admin",
                password_hash.as_str(),
                "System Administrator",
                "admin",
                created_at.as_str(),
            ) {
                Ok(_) => {
                    proof {
                        if users_schema(old(db).conn) {
                            assert(bcrypt_verifies("admin123"@, password_hash@)
                                && password_hash@.len() == 60 && db_users(db.conn) == db_users(
                                old(db).conn,
                            ).insert("admin"@, seeded_admin(password_hash@)));
                        }
                    }
                    Ok(())
                },
                Err(e) => {
                    let mut m = String::from_str("Failed to insert admin user: ");
                    m.append(e.as_str());
                    proof {
                        assert(prefixed(m@, "Failed to insert admin user: "@)) by {
                            assert(m@ == "Failed to insert admin user: "@ + e@);
                        }
                    }
                    Err(m)
                },
            }
        },
        Err(e) => {
            let mut m = String::from_str("Failed to check for existing admin: ");
            m.append(e.as_str());
            proof {
                assert(prefixed(m@, "Failed to check for existing admin: "@)) by {
                    assert(m@ == "Failed to check for existing admin: "@ + e@);
                }
            }
            Err(m)
        },
    }
}

/// Ensures the "General" category exists: a no-op when present, otherwise one
/// insert of the fixed fallback category. Under the fixed schema nothing
/// else in the store changes, and a failure changes nothing at all.
pub fn insert_default_category(db: &mut Database) -> (r: Result<(), String>)
    ensures
        categories_schema(old(db).conn) && r is Ok ==> category_seed_step(
            db_categories(old(db).conn),
            db_categories(final(db).conn),
        ),
        categories_schema(old(db).conn) && r is Ok ==> db_categories(
            final(db).conn,
        ).contains_key("General"@),
        categories_schema(old(db).conn) && db_categories(old(db).conn).contains_key("General"@)
            && r is Ok ==> *final(db) == *old(db),
        categories_schema(old(db).conn) && r is Err ==> db_categories(final(db).conn)
            == db_categories(old(db).conn),
        categories_schema(old(db).conn) ==> db_users(final(db).conn) == db_users(old(db).conn),
        db_tables(final(db).conn) == db_tables(old(db).conn),
        users_schema(final(db).conn) == users_schema(old(db).conn),
        categories_schema(final(db).conn) == categories_schema(old(db).conn),
{
    match sqlite::category_lookup(&db.conn, "General") {
        Ok(Some(_)) => Ok(()),
        Ok(None) => {
            let created_at = clock::now_rfc3339();
            match sqlite::category_insert(
                &mut db.conn,
                "cat-001",
                "General",
                "Default category for products",
                created_at.as_str(),
            ) {
                Ok(_) => Ok(()),
                Err(e) => Err(e),
            }
        },
        Err(e) => Err(e),
    }
}

/// One startup pass: create the fixed schema, then attempt both seeds. A
/// bootstrap failure is fatal and reported with the failing table's index; a
/// seed failure leaves its table untouched and blocks neither the other seed
/// nor the startup — an error can only be the bootstrap's, and then neither
/// seed has run.
pub fn init_database(db: &mut Database) -> (r: Result<(), String>)
    ensures
        r is Ok ==> db_tables(final(db).conn) == db_tables(old(db).conn).union(
            schema::schema_tables(),
        ),
        r is Ok && schema_ready(
            db_tables(old(db).conn),
            users_schema(old(db).conn),
            categories_schema(old(db).conn),
        ) ==> admin_seed_outcome(
            schema::bootstrap_users(db_tables(old(db).conn), db_users(old(db).conn)),
            db_users(final(db).conn),
        ) && category_seed_outcome(
            schema::bootstrap_categories(db_tables(old(db).conn), db_categories(old(db).conn)),
            db_categories(final(db).conn),
        ) && users_schema(final(db).conn) && categories_schema(final(db).conn),
        r matches Err(m) ==> exists|i: int, c: Seq<char>|
            0 <= i < 9 && m@ == schema::bootstrap_err_msg(i, c) && db_tables(final(db).conn)
                == db_tables(old(db).conn).union(schema::names_upto(i)) && db_users(
                final(db).conn,
            ) == (if i == 0 {
                db_users(old(db).conn)
            } else {
                schema::bootstrap_users(db_tables(old(db).conn), db_users(old(db).conn))
            }) && db_categories(final(db).conn) == (if i <= 1 {
                db_categories(old(db).conn)
            } else {
                schema::bootstrap_categories(db_tables(old(db).conn), db_categories(old(db).conn))
            }),
{
    match schema::bootstrap(db) {
        Ok(_) => {},
        Err(e) => { return Err(e); },
    }
    let _ = insert_default_admin(db);
    let _ = insert_default_category(db);
    Ok(())
}

/// Seeding the administrator is idempotent: one pass leaves the "admin" row
/// present, and a second pass over its result changes nothing — so however
/// many startups run, the store keyed by its unique usernames holds exactly
/// one "admin" row.
pub proof fn lemma_admin_seed_idempotent(
    u0: Map<Seq<char>, UserRec>,
    u1: Map<Seq<char>, UserRec>,
    u2: Map<Seq<char>, UserRec>,
)
    requires
        admin_seed_step(u0, u1),
        admin_seed_step(u1, u2),
    ensures
        u1.contains_key("admin"@),
        u2 == u1,
{
    if !u0.contains_key("admin"@) {
        let h = choose|h: Seq<char>|
            #[trigger] bcrypt_verifies("admin123"@, h) && h.len() == 60 && u1 == u0.insert(
                "admin"@,
                seeded_admin(h),
            );
        assert(u1.contains_key("admin"@));
    }
}

/// The seeded hash is never the default password itself: a bcrypt hash is 60
/// characters long and the default password is not, so the plaintext was not
/// persisted.
pub proof fn lemma_seeded_hash_is_not_the_password(
    pre: Map<Seq<char>, UserRec>,
    post: Map<Seq<char>, UserRec>,
)
    requires
        admin_seed_step(pre, post),
        !pre.contains_key("admin"@),
    ensures
        post["admin"@].password_hash != "admin123"@,
{
    reveal_strlit("admin123");
    let h = choose|h: Seq<char>|
        #[trigger] bcrypt_verifies("admin123"@, h) && h.len() == 60 && post == pre.insert(
            "admin"@,
            seeded_admin(h),
        );
    assert(("admin123"@).len() == 8);
}

/// A second startup changes nothing: once a startup has left the schema in
/// place and the "admin" and "General" rows seeded, a further pass — its
/// bootstrap, then its two seed attempts — leaves tables, users and
/// categories exactly as they were.
pub proof fn lemma_second_startup_changes_nothing(
    t1: Set<Seq<char>>,
    t2: Set<Seq<char>>,
    u1: Map<Seq<char>, UserRec>,
    u2: Map<Seq<char>, UserRec>,
    c1: Map<Seq<char>, (Seq<char>, Seq<char>)>,
    c2: Map<Seq<char>, (Seq<char>, Seq<char>)>,
)
    requires
        t1 == t1.union(schema::schema_tables()),
        t2 == t1.union(schema::schema_tables()),
        u1.contains_key("admin"@),
        admin_seed_outcome(schema::bootstrap_users(t1, u1), u2),
        c1.contains_key("General"@),
        category_seed_outcome(schema::bootstrap_categories(t1, c1), c2),
    ensures
        t2 == t1,
        u2 == u1,
        c2 == c1,
{
    schema::lemma_names_upto_contains(0, 9);
    schema::lemma_names_upto_contains(1, 9);
}

/// Seeding the fallback category is idempotent: one pass leaves the "General"
/// row present, and a second pass over its result changes nothing.
pub proof fn lemma_category_seed_idempotent(
    c0: Map<Seq<char>, (Seq<char>, Seq<char>)>,
    c1: Map<Seq<char>, (Seq<char>, Seq<char>)>,
    c2: Map<Seq<char>, (Seq<char>, Seq<char>)>,
)
    requires
        category_seed_step(c0, c1),
        category_seed_step(c1, c2),
    ensures
        c1.contains_key("General"@),
        c2 == c1,
{
}

} // verus!
