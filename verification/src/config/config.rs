//! The earlier reading of the settings, in which a variable that cannot be
//! read is reported the same way whether it is absent or malformed.
use vstd::prelude::*;
use vstd::string::*;

use crate::config::{
    app_env_from_text, config_result, AppEnv, ConfigError, ConfigErrorView, EnvVar,
    OssConfig,
};
use crate::text::{parse_u16, u16_from_text};

verus! {

/// The value of a variable, or `None` when it could not be read.
pub open spec fn read_value(v: EnvVar) -> Option<Seq<char>> {
    match v {
        EnvVar::Present(s) => Some(s@),
        _ => None,
    }
}

fn read_env(v: EnvVar) -> (r: Option<String>)
    ensures
        crate::validation::opt_text(r) == read_value(v),
{
    match v {
        EnvVar::Present(s) => Some(s),
        _ => None,
    }
}

/// The error for a variable that could not be read.
pub fn gen_error(key: &str) -> (r: ConfigError)
    ensures
        r@ == ConfigErrorView::NotFound(key@),
{
    ConfigError::NotFound(key.to_owned())
}

/// The address and port of the server: a variable that cannot be read, or a
/// port that is not a 16-bit number, makes that setting illegal.
pub open spec fn legacy_web_server_config(addr: EnvVar, port: EnvVar) -> Result<
    (Seq<char>, u16),
    ConfigErrorView,
> {
    match read_value(addr) {
        None => Err(ConfigErrorView::Illegal("SERVER_ADDR"@)),
        Some(a) => match read_value(port) {
            None => Err(ConfigErrorView::Illegal("PORT"@)),
            Some(p) => match u16_from_text(p) {
                None => Err(ConfigErrorView::Illegal("PORT"@)),
                Some(n) => Ok((a, n)),
            },
        },
    }
}

/// The address and port of the server from what reading `SERVER_ADDR` and
/// `PORT` found.
pub fn get_web_server_config(addr: EnvVar, port: EnvVar) -> (r: Result<(String, u16), ConfigError>)
    ensures
        match r {
            Ok((a, n)) => legacy_web_server_config(addr, port) == Ok::<
                (Seq<char>, u16),
                ConfigErrorView,
            >((a@, n)),
            Err(e) => legacy_web_server_config(addr, port) == Err::<
                (Seq<char>, u16),
                ConfigErrorView,
            >(e@),
        },
{
    let addr = match read_env(addr) {
        Some(v) => v,
        None => return Err(ConfigError::Illegal(String::from_str("SERVER_ADDR"))),
    };
    let port = match read_env(port) {
        Some(v) => v,
        None => return Err(ConfigError::Illegal(String::from_str("PORT"))),
    };
    match parse_u16(port.as_str()) {
        Some(p) => Ok((addr, p)),
        None => Err(ConfigError::Illegal(String::from_str("PORT"))),
    }
}

/// The connection string of the database.
pub open spec fn postgres_url(
    user: Seq<char>,
    password: Seq<char>,
    addr: Seq<char>,
    port: Seq<char>,
    name: Seq<char>,
) -> Seq<char> {
    "postgres://"@ + user + ":"@ + password + "@"@ + addr + ":"@ + port + "/"@ + name
}

/// Builds the connection string of the database.
pub fn postgres_url_of(user: &str, password: &str, addr: &str, port: &str, name: &str) -> (r: String)
    ensures
        r@ == postgres_url(user@, password@, addr@, port@, name@),
{
    let mut s = String::from_str("postgres://");
    s.append(user);
    s.append(":");
    s.append(password);
    s.append("@");
    s.append(addr);
    s.append(":");
    s.append(port);
    s.append("/");
    s.append(name);
    s
}

/// One database setting: a variable that cannot be read is illegal, an empty
/// one is not found.
pub open spec fn legacy_db_part(key: Seq<char>, v: EnvVar) -> Result<Seq<char>, ConfigErrorView> {
    match read_value(v) {
        None => Err(ConfigErrorView::Illegal(key)),
        Some(s) => if s.len() == 0 {
            Err(ConfigErrorView::NotFound(key))
        } else {
            Ok(s)
        },
    }
}

fn legacy_db_setting(key: &str, v: EnvVar) -> (r: Result<String, ConfigError>)
    ensures
        match r {
            Ok(s) => legacy_db_part(key@, v) == Ok::<Seq<char>, ConfigErrorView>(s@),
            Err(e) => legacy_db_part(key@, v) == Err::<Seq<char>, ConfigErrorView>(e@),
        },
{
    match read_env(v) {
        None => Err(ConfigError::Illegal(key.to_owned())),
        Some(s) => if s.unicode_len() == 0 {
            Err(ConfigError::NotFound(key.to_owned()))
        } else {
            Ok(s)
        },
    }
}

/// The database connection string from `DATABASE_USER`, `DATABASE_PASSWORD`,
/// `DATABASE_ADDR`, `DATABASE_PORT` and `DATABASE_NAME`, checked in that order.
pub open spec fn legacy_db_config(
    user: EnvVar,
    password: EnvVar,
    addr: EnvVar,
    port: EnvVar,
    name: EnvVar,
) -> Result<Seq<char>, ConfigErrorView> {
    match legacy_db_part("DATABASE_USER"@, user) {
        Err(e) => Err(e),
        Ok(u) => match legacy_db_part("DATABASE_PASSWORD"@, password) {
            Err(e) => Err(e),
            Ok(p) => match legacy_db_part("DATABASE_ADDR"@, addr) {
                Err(e) => Err(e),
                Ok(a) => match legacy_db_part("DATABASE_PORT"@, port) {
                    Err(e) => Err(e),
                    Ok(o) => match legacy_db_part("DATABASE_NAME"@, name) {
                        Err(e) => Err(e),
                        Ok(n) => Ok(postgres_url(u, p, a, o, n)),
                    },
                },
            },
        },
    }
}

/// The database connection string from what reading its five variables found.
pub fn get_db_config(user: EnvVar, password: EnvVar, addr: EnvVar, port: EnvVar, name: EnvVar) -> (r:
    Result<String, ConfigError>)
    ensures
        match r {
            Ok(s) => legacy_db_config(user, password, addr, port, name) == Ok::<
                Seq<char>,
                ConfigErrorView,
            >(s@),
            Err(e) => legacy_db_config(user, password, addr, port, name) == Err::<
                Seq<char>,
                ConfigErrorView,
            >(e@),
        },
{
    let u = match legacy_db_setting("DATABASE_USER", user) {
        Ok(v) => v,
        Err(e) => return Err(e),
    };
    let p = match legacy_db_setting("DATABASE_PASSWORD", password) {
        Ok(v) => v,
        Err(e) => return Err(e),
    };
    let a = match legacy_db_setting("DATABASE_ADDR", addr) {
        Ok(v) => v,
        Err(e) => return Err(e),
    };
    let o = match legacy_db_setting("DATABASE_PORT", port) {
        Ok(v) => v,
        Err(e) => return Err(e),
    };
    let n = match legacy_db_setting("DATABASE_NAME", name) {
        Ok(v) => v,
        Err(e) => return Err(e),
    };
    Ok(postgres_url_of(u.as_str(), p.as_str(), a.as_str(), o.as_str(), n.as_str()))
}

/// The address of the Redis server from `REDIS_ADDR` and `REDIS_PORT`.
pub open spec fn redis_url(addr: EnvVar, port: EnvVar) -> Result<Seq<char>, ConfigErrorView> {
    match read_value(addr) {
        None => Err(ConfigErrorView::NotFound("REDIS_ADDR"@)),
        Some(a) => match read_value(port) {
            None => Err(ConfigErrorView::NotFound("REDIS_PORT"@)),
            Some(p) => Ok("redis://"@ + a + ":"@ + p),
        },
    }
}

/// The address of the Redis server from what reading its variables found.
pub fn get_redis_url(addr: EnvVar, port: EnvVar) -> (r: Result<String, ConfigError>)
    ensures
        match r {
            Ok(s) => redis_url(addr, port) == Ok::<Seq<char>, ConfigErrorView>(s@),
            Err(e) => redis_url(addr, port) == Err::<Seq<char>, ConfigErrorView>(e@),
        },
{
    let a = match read_env(addr) {
        Some(v) => v,
        None => return Err(gen_error("REDIS_ADDR")),
    };
    let p = match read_env(port) {
        Some(v) => v,
        None => return Err(gen_error("REDIS_PORT")),
    };
    let mut url = String::from_str("redis://");
    url.append(a.as_str());
    url.append(":");
    url.append(p.as_str());
    Ok(url)
}

/// The server mode from `APP_ENV`; a variable that cannot be read is not found.
pub open spec fn legacy_env_type(app_env: EnvVar) -> Result<AppEnv, ConfigErrorView> {
    match read_value(app_env) {
        None => Err(ConfigErrorView::NotFound("APP_ENV"@)),
        Some(s) => app_env_from_text(s),
    }
}

/// The server mode from what reading `APP_ENV` found.
pub fn get_env_type(app_env: EnvVar) -> (r: Result<AppEnv, ConfigError>)
    ensures
        config_result(r) == legacy_env_type(app_env),
{
    let env = match read_env(app_env) {
        Some(v) => v,
        None => return Err(gen_error("APP_ENV")),
    };
    AppEnv::parse(env.as_str())
}

/// The storage settings from `OSS_URL`, `OSS_ACCESS_KEY`, `OSS_SECRET_KEY`,
/// `OSS_BUCKET_NAME` and `OSS_TENP_FOLDER`, read in that order; the first
/// that cannot be read is not found.
pub fn get_oss_fs(
    url: EnvVar,
    access_key: EnvVar,
    secret_key: EnvVar,
    bucket_name: EnvVar,
    temp_folder: EnvVar,
) -> (r: Result<OssConfig, ConfigError>)
    ensures
        read_value(url) is None ==> (r matches Err(e) && e@ == ConfigErrorView::NotFound(
            "OSS_URL"@,
        )),
        read_value(url) is Some && read_value(access_key) is None ==> (r matches Err(e) && e@
            == ConfigErrorView::NotFound("OSS_ACCESS_KEY"@)),
        read_value(url) is Some && read_value(access_key) is Some && read_value(secret_key) is None
            ==> (r matches Err(e) && e@ == ConfigErrorView::NotFound("OSS_SECRET_KEY"@)),
        read_value(url) is Some && read_value(access_key) is Some && read_value(secret_key) is Some
            && read_value(bucket_name) is None ==> (r matches Err(e) && e@
            == ConfigErrorView::NotFound("OSS_BUCKET_NAME"@)),
        read_value(url) is Some && read_value(access_key) is Some && read_value(secret_key) is Some
            && read_value(bucket_name) is Some && read_value(temp_folder) is None ==> (r matches Err(
            e,
        ) && e@ == ConfigErrorView::NotFound("OSS_TENP_FOLDER"@)),
        r matches Ok(c) ==> c.url@ == read_value(url)->0 && c.access_key@ == read_value(
            access_key,
        )->0 && c.secret_key@ == read_value(secret_key)->0 && c.bucket_name@ == read_value(
            bucket_name,
        )->0 && c.temp_folder@ == read_value(temp_folder)->0,
        (read_value(url) is Some && read_value(access_key) is Some && read_value(secret_key) is Some
            && read_value(bucket_name) is Some && read_value(temp_folder) is Some) ==> r is Ok,
{
    proof {
        reveal_strlit("OSS_URL");
        reveal_strlit("OSS_ACCESS_KEY");
        reveal_strlit("OSS_SECRET_KEY");
        reveal_strlit("OSS_BUCKET_NAME");
        reveal_strlit("OSS_TENP_FOLDER");
        assert("OSS_URL"@.len() == 7);
        assert("OSS_ACCESS_KEY"@.len() == 14);
        assert("OSS_SECRET_KEY"@.len() == 14);
        assert("OSS_BUCKET_NAME"@.len() == 15);
        assert("OSS_TENP_FOLDER"@.len() == 15);
        assert("OSS_ACCESS_KEY"@[4] != "OSS_SECRET_KEY"@[4]);
        assert("OSS_BUCKET_NAME"@[4] != "OSS_TENP_FOLDER"@[4]);
    }
    let mut config = OssConfig::new();
    let v = match read_env(url) {
        Some(v) => v,
        None => return Err(gen_error("OSS_URL")),
    };
    config.add_by_env_key("OSS_URL", v);
    let v = match read_env(access_key) {
        Some(v) => v,
        None => return Err(gen_error("OSS_ACCESS_KEY")),
    };
    config.add_by_env_key("OSS_ACCESS_KEY", v);
    let v = match read_env(secret_key) {
        Some(v) => v,
        None => return Err(gen_error("OSS_SECRET_KEY")),
    };
    config.add_by_env_key("OSS_SECRET_KEY", v);
    let v = match read_env(bucket_name) {
        Some(v) => v,
        None => return Err(gen_error("OSS_BUCKET_NAME")),
    };
    config.add_by_env_key("OSS_BUCKET_NAME", v);
    let v = match read_env(temp_folder) {
        Some(v) => v,
        None => return Err(gen_error("OSS_TENP_FOLDER")),
    };
    config.add_by_env_key("OSS_TENP_FOLDER", v);
    Ok(config)
}

} // verus!
