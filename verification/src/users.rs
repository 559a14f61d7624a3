//! Credential verification and user management.

use vstd::prelude::*;
use crate::clock;
use crate::crypto;
use crate::crypto::bcrypt_error_text;
use crate::crypto::bcrypt_parses;
use crate::crypto::bcrypt_verifies;
use crate::model::UserRec;
use crate::model::UserRow;
use crate::model::rectangular;
use crate::sqlite;
use crate::sqlite::categories_schema;
use crate::sqlite::db_categories;
use crate::sqlite::db_tables;
use crate::sqlite::db_users;
use crate::sqlite::users_schema;
use crate::store::Database;
use crate::store::run_query;

verus! {

/// A login request: the credentials as the shell hands them over.
pub struct UserLogin {
    pub username: String,
    pub password: String,
}

/// The public profile returned on a successful login. It never carries the
/// password hash.
pub struct UserProfile {
    pub id: String,
    pub username: String,
    pub full_name: String,
    pub role: String,
}

/// A user-creation request; an absent role defaults to "cashier".
pub struct NewUser {
    pub id: String,
    pub username: String,
    pub password: String,
    pub full_name: String,
    pub role: Option<String>,
}

/// A creation request is rejected when a required field is missing, that is,
/// absent from the payload or empty.
pub open spec fn missing_required(u: NewUser) -> bool {
    u.id@.len() == 0 || u.username@.len() == 0 || u.password@.len() == 0 || u.full_name@.len() == 0
}

/// The role a creation request asks for, defaulting to "cashier".
pub open spec fn requested_role(u: NewUser) -> Seq<char> {
    match u.role {
        Option::Some(r) => r@,
        Option::None => "cashier"@,
    }
}

/// Decides a login from the looked-up user row: no row fails as unknown; a
/// disabled row is rejected before the password is even checked; an active
/// row has the password verified against its stored salted hash, and only a
/// match yields the profile. A hash the verifier cannot parse surfaces the
/// verifier's own error.
pub fn login_decision(row: Option<UserRow>, login_data: UserLogin) -> (r: Result<
    UserProfile,
    String,
>)
    ensures
        row is None ==> (r matches Err(m) && m@ == "User not found"@),
        row matches Some(u) && !u@.is_active ==> (r matches Err(m) && m@
            == "Account is disabled"@),
        row matches Some(u) ==> (u@.is_active && bcrypt_parses(u@.password_hash)
            && bcrypt_verifies(login_data.password@, u@.password_hash) ==> (r matches Ok(p)
            && p.id@ == u@.id && p.username@ == login_data.username@ && p.full_name@
            == u@.full_name && p.role@ == u@.role)),
        row matches Some(u) ==> (u@.is_active && bcrypt_parses(u@.password_hash)
            && !bcrypt_verifies(login_data.password@, u@.password_hash) ==> (r matches Err(m)
            && m@ == "Invalid username or password"@)),
        row matches Some(u) ==> (u@.is_active && !bcrypt_parses(u@.password_hash) ==> (r matches
            Err(m) && m@ == bcrypt_error_text(u@.password_hash))),
        r matches Ok(p) ==> (row matches Some(u) && u@.is_active && bcrypt_verifies(
            login_data.password@,
            u@.password_hash,
        ) && p.id@ == u@.id && p.username@ == login_data.username@ && p.full_name@ == u@.full_name
            && p.role@ == u@.role),
{
    match row {
        Some(u) => {
            if u.is_active == 0 {
                Err(String::from_str("Account is disabled"))
            } else {
                match crypto::verify_password(
                    login_data.password.as_str(),
                    u.password_hash.as_str(),
                ) {
                    Ok(true) => Ok(
                        UserProfile {
                            id: u.id,
                            username: login_data.username,
                            full_name: u.full_name,
                            role: u.role,
                        },
                    ),
                    Ok(false) => Err(String::from_str("Invalid username or password")),
                    Err(e) => Err(e),
                }
            }
        },
        None => Err(String::from_str("User not found")),
    }
}

/// Verifies credentials against the store: the user row is looked up by
/// username and `login_decision` rules on it. A lookup the store itself
/// fails is reported as an unknown user, so only that case can stand between
/// valid credentials and success.
pub fn login_user(db: &Database, login_data: UserLogin) -> (r: Result<UserProfile, String>)
    ensures
        r matches Ok(p) ==> ({
            let u = db_users(db.conn)[login_data.username@];
            &&& db_users(db.conn).contains_key(login_data.username@)
            &&& u.is_active
            &&& bcrypt_verifies(login_data.password@, u.password_hash)
            &&& p.id@ == u.id
            &&& p.username@ == login_data.username@
            &&& p.full_name@ == u.full_name
            &&& p.role@ == u.role
        }),
        db_users(db.conn).contains_key(login_data.username@) && db_users(
            db.conn,
        )[login_data.username@].is_active && bcrypt_parses(
            db_users(db.conn)[login_data.username@].password_hash,
        ) && bcrypt_verifies(
            login_data.password@,
            db_users(db.conn)[login_data.username@].password_hash,
        ) ==> (r is Ok || (r matches Err(m) && m@ == "User not found"@)),
        !db_users(db.conn).contains_key(login_data.username@) ==> (r matches Err(m) && m@
            == "User not found"@),
        db_users(db.conn).contains_key(login_data.username@) && !db_users(
            db.conn,
        )[login_data.username@].is_active ==> (r matches Err(m) && (m@ == "Account is disabled"@
            || m@ == "User not found"@)),
        db_users(db.conn).contains_key(login_data.username@) && db_users(
            db.conn,
        )[login_data.username@].is_active && bcrypt_parses(
            db_users(db.conn)[login_data.username@].password_hash,
        ) && !bcrypt_verifies(
            login_data.password@,
            db_users(db.conn)[login_data.username@].password_hash,
        ) ==> (r matches Err(m) && (m@ == "Invalid username or password"@ || m@
            == "User not found"@)),
        db_users(db.conn).contains_key(login_data.username@) && db_users(
            db.conn,
        )[login_data.username@].is_active && !bcrypt_parses(
            db_users(db.conn)[login_data.username@].password_hash,
        ) ==> (r matches Err(m) && (m@ == bcrypt_error_text(
            db_users(db.conn)[login_data.username@].password_hash,
        ) || m@ == "User not found"@)),
        db_users(db.conn).contains_key(login_data.username@) && db_users(
            db.conn,
        )[login_data.username@].is_active && !bcrypt_verifies(
            login_data.password@,
            db_users(db.conn)[login_data.username@].password_hash,
        ) ==> r is Err,
{
    match sqlite::user_lookup(&db.conn, login_data.username.as_str()) {
        Ok(row) => login_decision(row, login_data),
        Err(_) => Err(String::from_str("User not found")),
    }
}

/// Creates a user: a payload missing id, username, password or full name is
/// rejected before any store access; otherwise the password is hashed with
/// the salted slow hash — the plaintext is never persisted — and the row is
/// inserted active under its username, which the fixed schema keeps unique:
/// a taken username is refused.
pub fn create_user(db: &mut Database, user: NewUser) -> (r: Result<String, String>)
    ensures
        r matches Ok(m) ==> m@ == "User created successfully"@,
        r is Ok ==> !missing_required(user),
        missing_required(user) ==> (r matches Err(m) && m@ == "Missing required fields"@),
        missing_required(user) ==> *final(db) == *old(db),
        users_schema(old(db).conn) && !missing_required(user) && r is Ok ==> exists|h: Seq<char>|
            #[trigger] bcrypt_verifies(user.password@, h) && h.len() == 60 && db_users(
                final(db).conn,
            ) == db_users(old(db).conn).insert(
                user.username@,
                UserRec {
                    id: user.id@,
                    password_hash: h,
                    full_name: user.full_name@,
                    role: requested_role(user),
                    is_active: true,
                },
            ),
        users_schema(old(db).conn) && !missing_required(user) && r is Ok && user.password@.len()
            != 60 ==> db_users(final(db).conn)[user.username@].password_hash != user.password@,
        users_schema(old(db).conn) && !missing_required(user) && db_users(
            old(db).conn,
        ).contains_key(user.username@) ==> r is Err,
        users_schema(old(db).conn) && r is Err ==> db_users(final(db).conn) == db_users(
            old(db).conn,
        ),
        users_schema(old(db).conn) ==> db_categories(final(db).conn) == db_categories(
            old(db).conn,
        ),
        users_schema(old(db).conn) ==> db_tables(final(db).conn) == db_tables(old(db).conn),
        users_schema(final(db).conn) == users_schema(old(db).conn),
        categories_schema(final(db).conn) == categories_schema(old(db).conn),
{
    if user.id.as_str().is_empty() || user.username.as_str().is_empty()
        || user.password.as_str().is_empty() || user.full_name.as_str().is_empty() {
        return Err(String::from_str("Missing required fields"));
    }
    let password_hash = match crypto::hash_password(user.password.as_str()) {
        Ok(h) => h,
        Err(e) => {
            let mut m = String::from_str("Failed to hash password: ");
            m.append(e.as_str());
            return Err(m);
        },
    };
    let role: &str = match &user.role {
        Option::Some(r) => r.as_str(),
        Option::None => "cashier",
    };
    let created_at = clock::now_rfc3339();
    match sqlite::user_insert(
        &mut db.conn,
        user.id.as_str(),
        user.username.as_str(),
        password_hash.as_str(),
        user.full_name.as_str(),
        role,
        created_at.as_str(),
    ) {
        Ok(_) => {
            proof {
                assert(role@ == requested_role(user));
                if users_schema(old(db).conn) {
                    assert(bcrypt_verifies(user.password@, password_hash@) && password_hash@.len()
                        == 60 && db_users(db.conn) == db_users(old(db).conn).insert(
                        user.username@,
                        UserRec {
                            id: user.id@,
                            password_hash: password_hash@,
                            full_name: user.full_name@,
                            role: requested_role(user),
                            is_active: true,
                        },
                    ));
                    assert(db_users(db.conn)[user.username@].password_hash == password_hash@);
                }
            }
            Ok(String::from_str("User created successfully"))
        },
        Err(e) => Err(e),
    }
}

/// Lists every user's public columns as a rectangular string matrix.
pub fn get_users(db: &mut Database) -> (r: Result<Vec<Vec<String>>, String>)
    ensures
        r matches Ok(m) ==> rectangular(m@),
{
    run_query(
        db,
        "SELECT id, username, full_name, role, is_active, created_at FROM users",
        Vec::new(),
    )
}

} // verus!
