//! The configuration values the service consumes: the single credential pair
//! checked on every management request, and the storage connection
//! parameters. Both are read once at startup by an unverified collaborator
//! and are immutable afterwards; the defaults below are what a fresh
//! installation runs with.

use vstd::prelude::*;

verus! {

/// The single configured identity. Every management request must present
/// exactly this username and password.
pub struct User {
    pub username: String,
    pub password: String,
}

impl Clone for User {
    fn clone(&self) -> (r: Self)
        ensures
            r == *self,
    {
        User { username: self.username.clone(), password: self.password.clone() }
    }
}

impl Default for User {
    fn default() -> (r: Self)
        ensures
            r.username@ == "admin"@,
            r.password@ == "admin"@,
    {
        User { username: "admin".to_owned(), password: "admin".to_owned() }
    }
}

/// Where the storage engine lives and how to sign in to it. The store
/// contract itself does not depend on these values.
pub struct DatabaseConfig {
    pub hostname: String,
    pub port: u16,
    pub username: String,
    pub password: String,
    pub database: String,
}

impl Default for DatabaseConfig {
    fn default() -> (r: Self)
        ensures
            r.hostname@ == "localhost"@,
            r.port == 5432,
            r.username@ == "yaus"@,
            r.password@ == "password"@,
            r.database@ == "yaus"@,
    {
        DatabaseConfig {
            hostname: "localhost".to_owned(),
            port: 5432,
            username: "yaus".to_owned(),
            password: "password".to_owned(),
            database: "yaus".to_owned(),
        }
    }
}

/// The whole configuration surface the service consumes.
pub struct Config {
    pub user: User,
    pub database: DatabaseConfig,
}

impl Default for Config {
    fn default() -> (r: Self)
        ensures
            r.user.username@ == "admin"@,
            r.user.password@ == "admin"@,
            r.database.hostname@ == "localhost"@,
            r.database.port == 5432,
            r.database.username@ == "yaus"@,
            r.database.password@ == "password"@,
            r.database.database@ == "yaus"@,
    {
        Config { user: User::default(), database: DatabaseConfig::default() }
    }
}

} // verus!
