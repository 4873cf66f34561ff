//! Service configuration: an explicitly constructed context handed to the
//! components at startup, never process-wide state. Reading and writing
//! the configuration file belongs to the surrounding program; the shapes,
//! defaults and the validity check live here.

pub mod mail;

use vstd::prelude::*;
use crate::tokens::is_alphanumeric_char;
use self::mail::Mail;

verus! {

/// Current configuration shape version.
pub const CONFIG_VERSION: u8 = 1;

/// The version a configuration defaults to.
pub fn default_version() -> (r: u8)
    ensures
        r == CONFIG_VERSION,
{
    CONFIG_VERSION
}

/// The host a server binds by default.
pub fn default_host() -> (r: String)
    ensures
        r@ == "127.0.0.1"@,
{
    "127.0.0.1".to_owned()
}

/// The port a server binds by default.
pub fn default_port() -> (r: u32)
    ensures
        r == 7817,
{
    7817
}

/// The externally visible address a deployment defaults to.
pub fn default_domain() -> (r: String)
    ensures
        r@ == "http://localhost:7817"@,
{
    "http://localhost:7817".to_owned()
}

/// A fresh random signing secret, generated when none is configured.
pub fn default_jwt_secret() -> (r: String)
    ensures
        r@.len() == 16,
        forall|i: int| 0 <= i < r@.len() ==> is_alphanumeric_char(#[trigger] r@[i]),
{
    crate::tokens::string(16)
}

/// Site-level switches.
#[derive(Clone, Debug)]
pub struct Site {
    pub enable_registration: bool,
}

impl Default for Site {
    fn default() -> (r: Site)
        ensures
            r.enable_registration == true,
    {
        Site { enable_registration: true }
    }
}

/// Connection settings for the relational store.
#[derive(Clone, Debug)]
pub struct Database {
    pub host: String,
    pub port: u16,
    pub dbname: String,
    pub username: String,
    pub password: String,
}

impl Default for Database {
    fn default() -> (r: Database)
        ensures
            r.host@ == "localhost"@,
            r.port == 5432,
            r.dbname@ == "postgres"@,
            r.username@ == "postgres"@,
            r.password@ == ""@,
    {
        Database {
            host: "localhost".to_owned(),
            port: 5432,
            dbname: "postgres".to_owned(),
            username: "postgres".to_owned(),
            password: "".to_owned(),
        }
    }
}

/// Connection settings for a file-backed relational store.
#[derive(Clone, Debug)]
pub struct DatabaseSqlite {
    pub file: String,
}

/// The relational store a deployment selects, as a tagged sum at the
/// configuration layer only; the engine itself depends on no variant.
#[derive(Clone, Debug)]
pub enum DatabaseType {
    Postgresql(Database),
    Mysql(Database),
    Sqlite(DatabaseSqlite),
}

/// Connection settings for the ephemeral key-value store.
#[derive(Clone, Debug)]
pub struct Redis {
    pub host: String,
    pub port: Option<u16>,
    pub username: Option<String>,
    pub password: Option<String>,
}

impl Default for Redis {
    fn default() -> (r: Redis)
        ensures
            r.host@ == "127.0.0.1"@,
            r.port is None,
            r.username is None,
            r.password is None,
    {
        Redis { host: "127.0.0.1".to_owned(), port: None, username: None, password: None }
    }
}

/// Secrets.
#[derive(Clone, Debug)]
pub struct Secure {
    pub jwt_secret: String,
}

impl Default for Secure {
    fn default() -> (r: Secure)
        ensures
            r.jwt_secret@.len() == 16,
    {
        Secure { jwt_secret: default_jwt_secret() }
    }
}

/// The whole configuration.
#[derive(Clone, Debug)]
pub struct Config {
    pub version: u8,
    pub host: String,
    pub port: u32,
    pub domain: String,
    pub dev_mode: bool,
    pub site: Site,
    pub database: Database,
    pub redis: Redis,
    pub secure: Secure,
    pub mail: Option<Mail>,
}

impl Default for Config {
    fn default() -> (r: Config)
        ensures
            r.version == CONFIG_VERSION,
            r.host@ == "0.0.0.0"@,
            r.port == 7817,
            r.domain@ == "http://localhost:7817"@,
            r.dev_mode == false,
            r.site.enable_registration == true,
            r.mail is None,
    {
        Config {
            version: CONFIG_VERSION,
            host: "0.0.0.0".to_owned(),
            port: 7817,
            domain: default_domain(),
            dev_mode: false,
            site: Site::default(),
            database: Database::default(),
            redis: Redis::default(),
            secure: Secure::default(),
            mail: None,
        }
    }
}

impl Config {
    /// Repairs an invalid configuration in place: a port outside the
    /// valid range falls back to the default; everything else is kept.
    pub fn check(&mut self)
        ensures
            final(self).port == (if 1 <= old(self).port <= 65535 {
                old(self).port
            } else {
                7817u32
            }),
            final(self).version == old(self).version,
            final(self).host@ == old(self).host@,
            final(self).domain@ == old(self).domain@,
            final(self).dev_mode == old(self).dev_mode,
            final(self).site == old(self).site,
            final(self).database == old(self).database,
            final(self).redis == old(self).redis,
            final(self).secure == old(self).secure,
            final(self).mail == old(self).mail,
    {
        if !(1 <= self.port && self.port <= 65535) {
            self.port = 7817;
        }
    }
}

} // verus!
