use venue_flow::config::{ConfigError, EnvVar};
use venue_flow::database::{get_db_config, DatabaseError};
use venue_flow::infra_error::{DomainInfraError, InfraError};
use venue_flow::queue::QueueError;

fn present(s: &str) -> EnvVar {
    EnvVar::Present(s.to_string())
}

#[test]
fn database_error_messages() {
    assert_eq!(
        DatabaseError::ConnectionRefused { source: "x".to_string() }.to_string(),
        "The Database connection be refused."
    );
    assert_eq!(DatabaseError::Other("o".to_string()).to_string(), "Other message:o");
    assert_eq!(DatabaseError::SelectFail.to_string(), "Conld not select the element in database.");
    assert_eq!(DatabaseError::DataNotFound.to_string(), "Data is not found.");
    assert_eq!(DatabaseError::SaveEntityFail.to_string(), "Failed to save entity.");
    assert_eq!(DatabaseError::DeleteEntityFail.to_string(), "Failed to delete the entity.");
    assert_eq!(DatabaseError::SelectPreantEntityFail.to_string(), "Fail to select the preant entity.");
}

#[test]
fn database_url_from_settings() {
    assert_eq!(
        get_db_config(present("u"), present("p"), present("h"), present("5432"), present("n")),
        Ok("postgres://u:p@h:5432/n".to_string())
    );
    assert_eq!(
        get_db_config(EnvVar::NotPresent, present("p"), present("h"), present("1"), present("n")),
        Err(InfraError::ConfigError(ConfigError::NotFound("DATABASE_USER".to_string())))
    );
    assert_eq!(
        get_db_config(present("u"), present("p"), present("h"), present(""), present("n")),
        Err(InfraError::ConfigError(ConfigError::NotFound("DATABASE_PORT".to_string())))
    );
    assert_eq!(
        get_db_config(present("u"), present("p"), present("h"), present("1"), EnvVar::NotUnicode),
        Err(InfraError::ConfigError(ConfigError::Illegal("DATABASE_NAME".to_string())))
    );
}

#[test]
fn infrastructure_failures_as_the_domain_sees_them() {
    assert_eq!(
        InfraError::RedisError("down".to_string()).to_domain(),
        DomainInfraError::MiddlewareError { message: "down".to_string() }
    );
    assert_eq!(
        InfraError::ConfigError(ConfigError::NotFound("PORT".to_string())).to_domain(),
        DomainInfraError::MiddlewareError { message: "The PORT fleid is not found".to_string() }
    );
    assert_eq!(
        InfraError::QueueError(QueueError::FailToFetchConfig).to_domain(),
        DomainInfraError::MiddlewareError { message: "Failed to fetch queue configuration.".to_string() }
    );
    assert_eq!(
        InfraError::DatabaseError(DatabaseError::ConnectionRefused { source: "refused".to_string() }).to_domain(),
        DomainInfraError::SystemError { message: "refused".to_string() }
    );
    assert_eq!(
        InfraError::DatabaseError(DatabaseError::DataNotFound).to_domain(),
        DomainInfraError::DataSelectFail { message: "Data is not found.".to_string() }
    );
    assert_eq!(InfraError::SaveImageFail.to_domain(), DomainInfraError::ServerError);
    assert_eq!(InfraError::FileNotFound.to_domain(), DomainInfraError::FileFormatInvalid);
    assert_eq!(
        InfraError::FailToDecodeJWT { message: "bad".to_string() }.to_domain(),
        DomainInfraError::SystemError { message: "bad".to_string() }
    );
    assert_eq!(InfraError::AccessDenied.to_domain(), DomainInfraError::AccessDenied);
}
