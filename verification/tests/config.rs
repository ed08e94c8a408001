use venue_flow::config::config as legacy;
use venue_flow::config::{
    get_env_type, get_env_value_from_key, get_jwt_secret_key, get_web_server_config, AppEnv,
    ConfigError, EnvVar, OssConfig,
};

fn present(s: &str) -> EnvVar {
    EnvVar::Present(s.to_string())
}

#[test]
fn config_error_messages() {
    assert_eq!(ConfigError::NotFound("PORT".to_string()).to_string(), "The PORT fleid is not found");
    assert_eq!(ConfigError::Illegal("PORT".to_string()).to_string(), "The PORT fleid is illegal");
    assert_eq!(ConfigError::Other("odd".to_string()).to_string(), "odd");
}

#[test]
fn variables_absent_or_malformed() {
    assert_eq!(get_env_value_from_key("K", present("v")), Ok("v".to_string()));
    assert_eq!(get_env_value_from_key("K", EnvVar::NotPresent), Err(ConfigError::NotFound("K".to_string())));
    assert_eq!(get_env_value_from_key("K", EnvVar::NotUnicode), Err(ConfigError::Illegal("K".to_string())));
    assert_eq!(get_jwt_secret_key(present("s3cret")), Ok("s3cret".to_string()));
    assert_eq!(get_jwt_secret_key(EnvVar::NotPresent), Err(ConfigError::NotFound("JWT_SECRET".to_string())));
}

#[test]
fn app_modes() {
    assert_eq!(AppEnv::parse("develop"), Ok(AppEnv::DEVELOP));
    assert_eq!(AppEnv::parse("production"), Ok(AppEnv::PRODUCTION));
    assert_eq!(
        AppEnv::parse("prod"),
        Err(ConfigError::Illegal("The env mode configurtion is invaild".to_string()))
    );
    assert_eq!("develop".parse::<AppEnv>(), Ok(AppEnv::DEVELOP));
    assert_eq!(get_env_type(present("production")), Ok(AppEnv::PRODUCTION));
    assert_eq!(get_env_type(EnvVar::NotPresent), Err(ConfigError::NotFound("APP_ENV".to_string())));
    assert_eq!(legacy::get_env_type(EnvVar::NotUnicode), Err(ConfigError::NotFound("APP_ENV".to_string())));
    assert_eq!(legacy::get_env_type(present("develop")), Ok(AppEnv::DEVELOP));
}

#[test]
fn web_server_settings() {
    assert_eq!(get_web_server_config(present("0.0.0.0"), present("8080")), Ok(("0.0.0.0".to_string(), 8080)));
    assert_eq!(get_web_server_config(present("a"), present("65536")), Err(ConfigError::Illegal("PORT".to_string())));
    assert_eq!(get_web_server_config(present("a"), present("80a")), Err(ConfigError::Illegal("PORT".to_string())));
    assert_eq!(get_web_server_config(EnvVar::NotPresent, present("1")), Err(ConfigError::NotFound("SERVER_ADDR".to_string())));
    assert_eq!(get_web_server_config(present("a"), EnvVar::NotUnicode), Err(ConfigError::Illegal("PORT".to_string())));
    assert_eq!(legacy::get_web_server_config(present("h"), present("65535")), Ok(("h".to_string(), 65535)));
    assert_eq!(legacy::get_web_server_config(EnvVar::NotPresent, present("1")), Err(ConfigError::Illegal("SERVER_ADDR".to_string())));
    assert_eq!(legacy::get_web_server_config(present("h"), EnvVar::NotPresent), Err(ConfigError::Illegal("PORT".to_string())));
}

#[test]
fn legacy_database_url() {
    assert_eq!(
        legacy::postgres_url_of("u", "p", "db.local", "5432", "venues"),
        "postgres://u:p@db.local:5432/venues"
    );
    assert_eq!(
        legacy::get_db_config(present("u"), present("p"), present("h"), present("1"), present("n")),
        Ok("postgres://u:p@h:1/n".to_string())
    );
    assert_eq!(
        legacy::get_db_config(present("u"), present(""), present("h"), present("1"), present("n")),
        Err(ConfigError::NotFound("DATABASE_PASSWORD".to_string()))
    );
    assert_eq!(
        legacy::get_db_config(present("u"), present("p"), EnvVar::NotPresent, present("1"), present("n")),
        Err(ConfigError::Illegal("DATABASE_ADDR".to_string()))
    );
}

#[test]
fn redis_url() {
    assert_eq!(legacy::get_redis_url(present("127.0.0.1"), present("6379")), Ok("redis://127.0.0.1:6379".to_string()));
    assert_eq!(legacy::get_redis_url(EnvVar::NotPresent, present("6379")), Err(ConfigError::NotFound("REDIS_ADDR".to_string())));
    assert_eq!(legacy::get_redis_url(present("h"), EnvVar::NotUnicode), Err(ConfigError::NotFound("REDIS_PORT".to_string())));
    assert_eq!(legacy::gen_error("X"), ConfigError::NotFound("X".to_string()));
}

#[test]
fn storage_settings() {
    let mut c = OssConfig::new();
    assert_eq!(c.url, "");
    c.add_by_env_key("OSS_URL", "https://oss".to_string());
    c.add_by_env_key("OSS_ACCESS_KEY", "ak".to_string());
    c.add_by_env_key("OSS_SECRET_KEY", "sk".to_string());
    c.add_by_env_key("OSS_BUCKET_NAME", "b".to_string());
    c.add_by_env_key("OSS_TENP_FOLDER", "tmp".to_string());
    c.add_by_env_key("OTHER", "ignored".to_string());
    assert_eq!(
        c,
        OssConfig {
            access_key: "ak".to_string(),
            secret_key: "sk".to_string(),
            bucket_name: "b".to_string(),
            url: "https://oss".to_string(),
            temp_folder: "tmp".to_string(),
        }
    );
    let r = legacy::get_oss_fs(present("u"), present("a"), present("s"), present("b"), present("t")).unwrap();
    assert_eq!((r.url.as_str(), r.access_key.as_str(), r.temp_folder.as_str()), ("u", "a", "t"));
    assert_eq!(
        legacy::get_oss_fs(present("u"), present("a"), EnvVar::NotPresent, present("b"), EnvVar::NotPresent),
        Err(ConfigError::NotFound("OSS_SECRET_KEY".to_string()))
    );
}
