//! Configuration handed to the engine before any operation runs: the
//! migration root directory, the changelog collection name, database
//! connection parameters, and the names of the environment variables
//! that hold the credentials.

use vstd::prelude::*;
use vstd::string::StringExecFns;
use crate::engine::{dec_str, u64_to_string};
use crate::order::str_eq;

verus! {

pub struct MigrationConfig {
    pub dir: String,
    pub changelog_coll_name: String,
}

impl MigrationConfig {
    /// The actual collection name: the configured name behind an
    /// underscore prefix.
    pub fn coll_name(&self) -> (r: String)
        ensures
            r@ == "_"@ + self.changelog_coll_name@,
    {
        let mut s = "_".to_owned();
        s.append(self.changelog_coll_name.as_str());
        s
    }
}

pub struct DbConfig {
    pub host: String,
    pub port: u16,
    pub name: String,
}

/// The names of the environment variables holding the credentials — not
/// the credentials themselves.
pub struct CredEnvVars {
    pub username: String,
    pub password: String,
}

pub struct Config {
    pub migration: MigrationConfig,
    pub db: DbConfig,
    pub creds_env_vars: CredEnvVars,
}

/// The connection string the database client is opened with.
pub fn build_connection_uri(username: &str, password: &str, host: &str, port: u16) -> (r: String)
    ensures
        r@ == "mongodb://"@ + username@ + ":"@ + password@ + "@"@ + host@ + ":"@ + dec_str(
            port as nat,
        ) + "/?authSource=admin"@,
{
    let mut s = "mongodb://".to_owned();
    s.append(username);
    s.append(":");
    s.append(password);
    s.append("@");
    s.append(host);
    s.append(":");
    let p = u64_to_string(port as u64);
    s.append(p.as_str());
    s.append("/?authSource=admin");
    proof {
        assert(s@ =~= "mongodb://"@ + username@ + ":"@ + password@ + "@"@ + host@ + ":"@ + dec_str(
            port as nat,
        ) + "/?authSource=admin"@);
    }
    s
}

/// A discovered configuration file and the format its extension names.
#[derive(Debug, PartialEq)]
pub enum ConfigFile {
    TOML(String),
    JSON(String),
}

impl ConfigFile {
    /// Whether a file extension names a supported configuration format.
    pub fn is_valid_extension(ext: &str) -> (r: bool)
        ensures
            r == (ext@ == "toml"@ || ext@ == "json"@),
    {
        str_eq(ext, "toml") || str_eq(ext, "json")
    }

    /// Classifies a candidate file by its extension, keeping its path;
    /// `None` for any extension that names no supported format.
    pub fn classify(path: String, ext: &str) -> (r: Option<ConfigFile>)
        ensures
            ext@ == "toml"@ ==> r == Some(ConfigFile::TOML(path)),
            ext@ != "toml"@ && ext@ == "json"@ ==> r == Some(ConfigFile::JSON(path)),
            ext@ != "toml"@ && ext@ != "json"@ ==> r is None,
    {
        if str_eq(ext, "toml") {
            Some(ConfigFile::TOML(path))
        } else if str_eq(ext, "json") {
            Some(ConfigFile::JSON(path))
        } else {
            None
        }
    }
}

} // verus!
