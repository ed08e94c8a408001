//! The database: where its connection string comes from and how its
//! failures are named.
use vstd::prelude::*;
use vstd::string::*;

use crate::config::config::{postgres_url, postgres_url_of};
use crate::config::{env_value, get_env_value_from_key, ConfigError, ConfigErrorView, EnvVar};
use crate::infra_error::InfraError;

verus! {

/// Failures of the database.
#[derive(Debug, Clone, PartialEq, Eq)]
pub enum DatabaseError {
    /// The connection was refused; the text is the driver's message.
    ConnectionRefused { source: String },
    Other(String),
    SelectFail,
    DataNotFound,
    SaveEntityFail,
    DeleteEntityFail,
    SelectPreantEntityFail,
}

impl DatabaseError {
    /// The message of the failure.
    pub open spec fn text(&self) -> Seq<char> {
        match self {
            DatabaseError::ConnectionRefused { .. } => "The Database connection be refused."@,
            DatabaseError::Other(s) => "Other message:"@ + s@,
            DatabaseError::SelectFail => "Conld not select the element in database."@,
            DatabaseError::DataNotFound => "Data is not found."@,
            DatabaseError::SaveEntityFail => "Failed to save entity."@,
            DatabaseError::DeleteEntityFail => "Failed to delete the entity."@,
            DatabaseError::SelectPreantEntityFail => "Fail to select the preant entity."@,
        }
    }

    pub fn to_string(&self) -> (r: String)
        ensures
            r@ == self.text(),
    {
        match self {
            DatabaseError::ConnectionRefused { .. } => String::from_str(
                "The Database connection be refused.",
            ),
            DatabaseError::Other(s) => {
                let mut m = String::from_str("Other message:");
                m.append(s.as_str());
                m
            },
            DatabaseError::SelectFail => String::from_str(
                "Conld not select the element in database.",
            ),
            DatabaseError::DataNotFound => String::from_str("Data is not found."),
            DatabaseError::SaveEntityFail => String::from_str("Failed to save entity."),
            DatabaseError::DeleteEntityFail => String::from_str("Failed to delete the entity."),
            DatabaseError::SelectPreantEntityFail => String::from_str(
                "Fail to select the preant entity.",
            ),
        }
    }
}

/// One database setting: it must be read and must not be empty.
pub open spec fn db_part(key: Seq<char>, v: EnvVar) -> Result<Seq<char>, ConfigErrorView> {
    match env_value(key, v) {
        Err(e) => Err(e),
        Ok(s) => if s.len() == 0 {
            Err(ConfigErrorView::NotFound(key))
        } else {
            Ok(s)
        },
    }
}

fn db_setting(key: &str, v: EnvVar) -> (r: Result<String, ConfigError>)
    ensures
        match r {
            Ok(s) => db_part(key@, v) == Ok::<Seq<char>, ConfigErrorView>(s@),
            Err(e) => db_part(key@, v) == Err::<Seq<char>, ConfigErrorView>(e@),
        },
{
    let s = match get_env_value_from_key(key, v) {
        Ok(s) => s,
        Err(e) => return Err(e),
    };
    if s.unicode_len() == 0 {
        return Err(ConfigError::NotFound(key.to_owned()));
    }
    Ok(s)
}

/// The connection string from `DATABASE_USER`, `DATABASE_PASSWORD`,
/// `DATABASE_ADDR`, `DATABASE_PORT` and `DATABASE_NAME`, checked in that order.
pub open spec fn db_config(
    user: EnvVar,
    password: EnvVar,
    addr: EnvVar,
    port: EnvVar,
    name: EnvVar,
) -> Result<Seq<char>, ConfigErrorView> {
    match db_part("DATABASE_USER"@, user) {
        Err(e) => Err(e),
        Ok(u) => match db_part("DATABASE_PASSWORD"@, password) {
            Err(e) => Err(e),
            Ok(p) => match db_part("DATABASE_ADDR"@, addr) {
                Err(e) => Err(e),
                Ok(a) => match db_part("DATABASE_PORT"@, port) {
                    Err(e) => Err(e),
                    Ok(o) => match db_part("DATABASE_NAME"@, name) {
                        Err(e) => Err(e),
                        Ok(n) => Ok(postgres_url(u, p, a, o, n)),
                    },
                },
            },
        },
    }
}

/// The connection string of the database from what reading its five
/// variables found; a setting that fails is reported as a settings error.
pub fn get_db_config(user: EnvVar, password: EnvVar, addr: EnvVar, port: EnvVar, name: EnvVar) -> (r:
    Result<String, InfraError>)
    ensures
        match r {
            Ok(s) => db_config(user, password, addr, port, name) == Ok::<Seq<char>, ConfigErrorView>(
                s@,
            ),
            Err(e) => e matches InfraError::ConfigError(c) && db_config(
                user,
                password,
                addr,
                port,
                name,
            ) == Err::<Seq<char>, ConfigErrorView>(c@),
        },
{
    let u = match db_setting("DATABASE_USER", user) {
        Ok(v) => v,
        Err(e) => return Err(InfraError::ConfigError(e)),
    };
    let p = match db_setting("DATABASE_PASSWORD", password) {
        Ok(v) => v,
        Err(e) => return Err(InfraError::ConfigError(e)),
    };
    let a = match db_setting("DATABASE_ADDR", addr) {
        Ok(v) => v,
        Err(e) => return Err(InfraError::ConfigError(e)),
    };
    let o = match db_setting("DATABASE_PORT", port) {
        Ok(v) => v,
        Err(e) => return Err(InfraError::ConfigError(e)),
    };
    let n = match db_setting("DATABASE_NAME", name) {
        Ok(v) => v,
        Err(e) => return Err(InfraError::ConfigError(e)),
    };
    Ok(postgres_url_of(u.as_str(), p.as_str(), a.as_str(), o.as_str(), n.as_str()))
}

} // verus!
