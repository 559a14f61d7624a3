pub mod clock;
pub mod crypto;
pub mod model;
pub mod schema;
pub mod seed;
pub mod sqlite;
pub mod store;
pub mod users;

pub use schema::bootstrap;
pub use seed::init_database;
pub use seed::insert_default_admin;
pub use seed::insert_default_category;
pub use store::Database;
pub use store::execute_query;
pub use store::run_query;
pub use users::NewUser;
pub use users::UserLogin;
pub use users::UserProfile;
pub use users::create_user;
pub use users::get_users;
pub use users::login_decision;
pub use users::login_user;
