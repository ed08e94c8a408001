//! Errors of the infrastructure, and how the domain layer sees them.
use vstd::prelude::*;
use vstd::string::*;

use crate::config::ConfigError;
use crate::database::DatabaseError;
use crate::queue::QueueError;

verus! {

/// Everything that can go wrong in the infrastructure. Failures of the file
/// store and of Redis are carried as their messages.
#[derive(Debug, Clone, PartialEq, Eq)]
pub enum InfraError {
    OssError(String),
    RedisError(String),
    DatabaseError(DatabaseError),
    ConfigError(ConfigError),
    QueueError(QueueError),
    FailToConstructLog,
    SaveImageFail,
    ObtainExtensionFail,
    FileNotFound,
    FileNotRead,
    FileTypeIsInvalid,
    FailToInitEventSystem { message: String },
    FailToInitHttpServer { message: String },
    FailToDecodeJWT { message: String },
    AccessDenied,
}

/// How the domain layer classifies an infrastructure failure.
#[derive(Debug, Clone, PartialEq, Eq)]
pub enum DomainInfraError {
    /// A service the platform relies on failed.
    MiddlewareError { message: String },
    /// The platform itself is broken.
    SystemError { message: String },
    /// Reading or writing stored data failed.
    DataSelectFail { message: String },
    ServerError,
    FileFormatInvalid,
    AccessDenied,
}

/// The classes of domain failures.
#[derive(Debug, Clone, Copy, PartialEq, Eq, Structural)]
pub enum DomainInfraKind {
    MiddlewareError,
    SystemError,
    DataSelectFail,
    ServerError,
    FileFormatInvalid,
    AccessDenied,
}

/// The class and message of a domain failure.
pub open spec fn domain_parts(d: DomainInfraError) -> (DomainInfraKind, Seq<char>) {
    match d {
        DomainInfraError::MiddlewareError { message } => (DomainInfraKind::MiddlewareError, message@),
        DomainInfraError::SystemError { message } => (DomainInfraKind::SystemError, message@),
        DomainInfraError::DataSelectFail { message } => (DomainInfraKind::DataSelectFail, message@),
        DomainInfraError::ServerError => (DomainInfraKind::ServerError, Seq::empty()),
        DomainInfraError::FileFormatInvalid => (DomainInfraKind::FileFormatInvalid, Seq::empty()),
        DomainInfraError::AccessDenied => (DomainInfraKind::AccessDenied, Seq::empty()),
    }
}

/// The messages of settings errors, as they are shown.
pub open spec fn config_error_text(e: ConfigError) -> Seq<char> {
    match e {
        ConfigError::NotFound(v) => "The "@ + v@ + " fleid is not found"@,
        ConfigError::Illegal(v) => "The "@ + v@ + " fleid is illegal"@,
        ConfigError::Other(v) => v@,
    }
}

/// The class and message that the domain sees for an infrastructure failure:
/// failures of the services it relies on keep their message; a refused
/// connection and startup failures are system errors with their message;
/// other database failures are data failures; file and log troubles have no
/// message.
pub open spec fn infra_to_domain(e: InfraError) -> (DomainInfraKind, Seq<char>) {
    match e {
        InfraError::OssError(m) => (DomainInfraKind::MiddlewareError, m@),
        InfraError::RedisError(m) => (DomainInfraKind::MiddlewareError, m@),
        InfraError::ConfigError(c) => (DomainInfraKind::MiddlewareError, config_error_text(c)),
        InfraError::QueueError(q) => (DomainInfraKind::MiddlewareError, q.text()),
        InfraError::DatabaseError(d) => match d {
            DatabaseError::ConnectionRefused { source } => (DomainInfraKind::SystemError, source@),
            DatabaseError::Other(s) => (DomainInfraKind::SystemError, s@),
            _ => (DomainInfraKind::DataSelectFail, d.text()),
        },
        InfraError::FailToConstructLog => (DomainInfraKind::ServerError, Seq::empty()),
        InfraError::SaveImageFail => (DomainInfraKind::ServerError, Seq::empty()),
        InfraError::FileNotRead => (DomainInfraKind::ServerError, Seq::empty()),
        InfraError::ObtainExtensionFail => (DomainInfraKind::FileFormatInvalid, Seq::empty()),
        InfraError::FileNotFound => (DomainInfraKind::FileFormatInvalid, Seq::empty()),
        InfraError::FileTypeIsInvalid => (DomainInfraKind::FileFormatInvalid, Seq::empty()),
        InfraError::FailToInitEventSystem { message } => (DomainInfraKind::SystemError, message@),
        InfraError::FailToInitHttpServer { message } => (DomainInfraKind::SystemError, message@),
        InfraError::FailToDecodeJWT { message } => (DomainInfraKind::SystemError, message@),
        InfraError::AccessDenied => (DomainInfraKind::AccessDenied, Seq::empty()),
    }
}

impl InfraError {
    /// The failure as the domain layer sees it. A failed deletion is not
    /// classified.
    pub fn to_domain(self) -> (r: DomainInfraError)
        requires
            self != InfraError::DatabaseError(DatabaseError::DeleteEntityFail),
        ensures
            domain_parts(r) == infra_to_domain(self),
    {
        match self {
            InfraError::OssError(m) => DomainInfraError::MiddlewareError { message: m },
            InfraError::RedisError(m) => DomainInfraError::MiddlewareError { message: m },
            InfraError::ConfigError(c) => DomainInfraError::MiddlewareError { message: c.to_string() },
            InfraError::QueueError(q) => DomainInfraError::MiddlewareError { message: q.to_string() },
            InfraError::DatabaseError(d) => match d {
                DatabaseError::ConnectionRefused { source } => DomainInfraError::SystemError {
                    message: source,
                },
                DatabaseError::Other(s) => DomainInfraError::SystemError { message: s },
                other => DomainInfraError::DataSelectFail { message: other.to_string() },
            },
            InfraError::FailToConstructLog => DomainInfraError::ServerError,
            InfraError::SaveImageFail => DomainInfraError::ServerError,
            InfraError::FileNotRead => DomainInfraError::ServerError,
            InfraError::ObtainExtensionFail => DomainInfraError::FileFormatInvalid,
            InfraError::FileNotFound => DomainInfraError::FileFormatInvalid,
            InfraError::FileTypeIsInvalid => DomainInfraError::FileFormatInvalid,
            InfraError::FailToInitEventSystem { message } => DomainInfraError::SystemError {
                message,
            },
            InfraError::FailToInitHttpServer { message } => DomainInfraError::SystemError {
                message,
            },
            InfraError::FailToDecodeJWT { message } => DomainInfraError::SystemError { message },
            InfraError::AccessDenied => DomainInfraError::AccessDenied,
        }
    }
}

} // verus!
