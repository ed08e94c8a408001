//! Settings read from the environment: what each variable must hold and the
//! error a missing or malformed one is reported with. Reading the variables
//! is left to the caller, which hands over what it found.
use vstd::prelude::*;
use vstd::string::*;

pub mod config;

use crate::text::{parse_u16, str_eq, u16_from_text};

verus! {

/// An error in the settings.
#[derive(Debug, Clone, PartialEq, Eq)]
pub enum ConfigError {
    /// The named setting is absent.
    NotFound(String),
    /// The named setting is present but unusable.
    Illegal(String),
    Other(String),
}

/// The contents of a settings error.
pub enum ConfigErrorView {
    NotFound(Seq<char>),
    Illegal(Seq<char>),
    Other(Seq<char>),
}

impl View for ConfigError {
    type V = ConfigErrorView;

    open spec fn view(&self) -> ConfigErrorView {
        match self {
            ConfigError::NotFound(s) => ConfigErrorView::NotFound(s@),
            ConfigError::Illegal(s) => ConfigErrorView::Illegal(s@),
            ConfigError::Other(s) => ConfigErrorView::Other(s@),
        }
    }
}

impl ConfigError {
    /// The message of the error.
    pub fn to_string(&self) -> (r: String)
        ensures
            r@ == match self@ {
                ConfigErrorView::NotFound(v) => "The "@ + v + " fleid is not found"@,
                ConfigErrorView::Illegal(v) => "The "@ + v + " fleid is illegal"@,
                ConfigErrorView::Other(v) => v,
            },
    {
        match self {
            ConfigError::NotFound(v) => {
                let mut s = String::from_str("The ");
                s.append(v.as_str());
                s.append(" fleid is not found");
                s
            },
            ConfigError::Illegal(v) => {
                let mut s = String::from_str("The ");
                s.append(v.as_str());
                s.append(" fleid is illegal");
                s
            },
            ConfigError::Other(v) => v.clone(),
        }
    }
}

/// What reading one environment variable found.
#[derive(Debug, Clone, PartialEq, Eq)]
pub enum EnvVar {
    Present(String),
    NotPresent,
    /// Present, but not valid unicode.
    NotUnicode,
}

/// The view of a settings result.
pub open spec fn config_result<T>(r: Result<T, ConfigError>) -> Result<T, ConfigErrorView> {
    match r {
        Ok(v) => Ok(v),
        Err(e) => Err(e@),
    }
}

/// The value of the variable `key`: absent is not found, non-unicode is illegal.
pub open spec fn env_value(key: Seq<char>, v: EnvVar) -> Result<Seq<char>, ConfigErrorView> {
    match v {
        EnvVar::Present(s) => Ok(s@),
        EnvVar::NotPresent => Err(ConfigErrorView::NotFound(key)),
        EnvVar::NotUnicode => Err(ConfigErrorView::Illegal(key)),
    }
}

/// The value of the variable `key`, from what reading it found.
pub fn get_env_value_from_key(key: &str, found: EnvVar) -> (r: Result<String, ConfigError>)
    ensures
        match r {
            Ok(s) => env_value(key@, found) == Ok::<Seq<char>, ConfigErrorView>(s@),
            Err(e) => env_value(key@, found) == Err::<Seq<char>, ConfigErrorView>(e@),
        },
{
    match found {
        EnvVar::Present(s) => Ok(s),
        EnvVar::NotPresent => Err(ConfigError::NotFound(key.to_owned())),
        EnvVar::NotUnicode => Err(ConfigError::Illegal(key.to_owned())),
    }
}

/// The mode the server runs in.
#[derive(Debug, Clone, Copy, PartialEq, Eq, Structural)]
pub enum AppEnv {
    DEVELOP,
    PRODUCTION,
}

/// The mode named by a text.
pub open spec fn app_env_from_text(s: Seq<char>) -> Result<AppEnv, ConfigErrorView> {
    if s == "develop"@ {
        Ok(AppEnv::DEVELOP)
    } else if s == "production"@ {
        Ok(AppEnv::PRODUCTION)
    } else {
        Err(ConfigErrorView::Illegal("The env mode configurtion is invaild"@))
    }
}

impl AppEnv {
    /// Reads the mode from its name: `develop` or `production`.
    pub fn parse(s: &str) -> (r: Result<AppEnv, ConfigError>)
        ensures
            config_result(r) == app_env_from_text(s@),
    {
        if str_eq(s, "develop") {
            Ok(AppEnv::DEVELOP)
        } else if str_eq(s, "production") {
            Ok(AppEnv::PRODUCTION)
        } else {
            Err(ConfigError::Illegal(String::from_str("The env mode configurtion is invaild")))
        }
    }
}

impl std::str::FromStr for AppEnv {
    type Err = ConfigError;

    /// Reads the mode from its name, as `parse` does.
    fn from_str(s: &str) -> (r: Result<Self, Self::Err>)
        ensures
            config_result(r) == app_env_from_text(s@),
    {
        AppEnv::parse(s)
    }
}

/// The mode from the variable `APP_ENV`.
pub open spec fn env_type(app_env: EnvVar) -> Result<AppEnv, ConfigErrorView> {
    match env_value("APP_ENV"@, app_env) {
        Err(e) => Err(e),
        Ok(s) => app_env_from_text(s),
    }
}

/// The mode from what reading `APP_ENV` found.
pub fn get_env_type(app_env: EnvVar) -> (r: Result<AppEnv, ConfigError>)
    ensures
        config_result(r) == env_type(app_env),
{
    let env = match get_env_value_from_key("APP_ENV", app_env) {
        Ok(v) => v,
        Err(e) => return Err(e),
    };
    AppEnv::parse(env.as_str())
}

/// The address and port the server listens on, from `SERVER_ADDR` and
/// `PORT`: the port must be a number that fits in 16 bits.
pub open spec fn web_server_config(addr: EnvVar, port: EnvVar) -> Result<
    (Seq<char>, u16),
    ConfigErrorView,
> {
    match env_value("SERVER_ADDR"@, addr) {
        Err(e) => Err(e),
        Ok(a) => match env_value("PORT"@, port) {
            Err(e) => Err(e),
            Ok(p) => match u16_from_text(p) {
                None => Err(ConfigErrorView::Illegal("PORT"@)),
                Some(n) => Ok((a, n)),
            },
        },
    }
}

/// The address and port the server listens on, from what reading
/// `SERVER_ADDR` and `PORT` found.
pub fn get_web_server_config(addr: EnvVar, port: EnvVar) -> (r: Result<(String, u16), ConfigError>)
    ensures
        match r {
            Ok((a, n)) => web_server_config(addr, port) == Ok::<(Seq<char>, u16), ConfigErrorView>(
                (a@, n),
            ),
            Err(e) => web_server_config(addr, port) == Err::<(Seq<char>, u16), ConfigErrorView>(
                e@,
            ),
        },
{
    let addr = match get_env_value_from_key("SERVER_ADDR", addr) {
        Ok(v) => v,
        Err(e) => return Err(e),
    };
    let port = match get_env_value_from_key("PORT", port) {
        Ok(v) => v,
        Err(e) => return Err(e),
    };
    match parse_u16(port.as_str()) {
        Some(p) => Ok((addr, p)),
        None => Err(ConfigError::Illegal(String::from_str("PORT"))),
    }
}

/// The key that signs session tokens, from what reading `JWT_SECRET` found.
pub fn get_jwt_secret_key(secret: EnvVar) -> (r: Result<String, ConfigError>)
    ensures
        match r {
            Ok(s) => env_value("JWT_SECRET"@, secret) == Ok::<Seq<char>, ConfigErrorView>(s@),
            Err(e) => env_value("JWT_SECRET"@, secret) == Err::<Seq<char>, ConfigErrorView>(e@),
        },
{
    get_env_value_from_key("JWT_SECRET", secret)
}

/// Where uploaded files are stored.
#[derive(Debug, Clone, PartialEq, Eq)]
pub struct OssConfig {
    pub access_key: String,
    pub secret_key: String,
    pub bucket_name: String,
    pub url: String,
    pub temp_folder: String,
}

/// The storage setting that a variable fills, by the variable's name.
pub open spec fn oss_after(c: OssConfig, key: Seq<char>, value: String) -> OssConfig {
    if key == "OSS_URL"@ {
        OssConfig { url: value, ..c }
    } else if key == "OSS_ACCESS_KEY"@ {
        OssConfig { access_key: value, ..c }
    } else if key == "OSS_SECRET_KEY"@ {
        OssConfig { secret_key: value, ..c }
    } else if key == "OSS_BUCKET_NAME"@ {
        OssConfig { bucket_name: value, ..c }
    } else if key == "OSS_TENP_FOLDER"@ {
        OssConfig { temp_folder: value, ..c }
    } else {
        c
    }
}

impl OssConfig {
    /// Storage settings with every field empty.
    pub fn new() -> (r: Self)
        ensures
            r.access_key@.len() == 0 && r.secret_key@.len() == 0 && r.bucket_name@.len() == 0
                && r.url@.len() == 0 && r.temp_folder@.len() == 0,
    {
        OssConfig {
            access_key: String::new(),
            secret_key: String::new(),
            bucket_name: String::new(),
            url: String::new(),
            temp_folder: String::new(),
        }
    }

    /// Stores the value of the variable `key` in the field it names; other
    /// keys change nothing.
    pub fn add_by_env_key(&mut self, key: &str, value: String)
        ensures
            *final(self) == oss_after(*old(self), key@, value),
    {
        if str_eq(key, "OSS_URL") {
            self.url = value;
        } else if str_eq(key, "OSS_ACCESS_KEY") {
            self.access_key = value;
        } else if str_eq(key, "OSS_SECRET_KEY") {
            self.secret_key = value;
        } else if str_eq(key, "OSS_BUCKET_NAME") {
            self.bucket_name = value;
        } else if str_eq(key, "OSS_TENP_FOLDER") {
            self.temp_folder = value;
        }
    }
}

} // verus!
