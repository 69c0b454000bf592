//! Credentials and the configuration of a connection to one instance.

use crate::env::{lookup, Environment};
use crate::errors::{view_of, GlideError, VarOrErr};
use vstd::prelude::*;

verus! {

/// The variable that holds a bearer token.
pub const SNOW_API_TOKEN: &'static str = "SNOW_API_TOKEN";

/// The variable that holds the user name of a basic pair.
pub const SNOW_API_USER: &'static str = "SNOW_API_USER";

/// The variable that holds the password of a basic pair.
pub const SNOW_API_PASSWD: &'static str = "SNOW_API_PASSWD";

/// The variable that holds the instance host.
pub const SNOW_API_INSTANCE: &'static str = "SNOW_API_INSTANCE";

/// How requests are authenticated.
#[derive(Debug)]
pub enum CredentialType {
    /// A user name and a password.
    Basic { user_name: String, passwd: String },
    /// A bearer token.
    Token(String),
}

/// What a `CredentialType` holds, as text.
pub enum CredentialView {
    Basic { user_name: Seq<char>, passwd: Seq<char> },
    Token(Seq<char>),
}

impl View for CredentialType {
    type V = CredentialView;

    open spec fn view(&self) -> CredentialView {
        match self {
            CredentialType::Basic { user_name, passwd } => CredentialView::Basic {
                user_name: user_name@,
                passwd: passwd@,
            },
            CredentialType::Token(token) => CredentialView::Token(token@),
        }
    }
}

/// The value of `name` in `vars`, or `missing` where it is not set.
pub open spec fn var_or(vars: Seq<(Seq<char>, Seq<char>)>, name: Seq<char>, missing: GlideError)
    -> Result<Seq<char>, GlideError> {
    match lookup(vars, name) {
        Some(value) => Ok(value),
        None => Err(missing),
    }
}

/// The credentials that `vars` configures. A bearer token wins; without one,
/// user name and password are both needed.
pub open spec fn credentials_in(vars: Seq<(Seq<char>, Seq<char>)>) -> Result<
    CredentialView,
    GlideError,
> {
    match lookup(vars, SNOW_API_TOKEN@) {
        Some(token) => Ok(CredentialView::Token(token)),
        None => match (lookup(vars, SNOW_API_USER@), lookup(vars, SNOW_API_PASSWD@)) {
            (Some(user_name), Some(passwd)) => Ok(CredentialView::Basic { user_name, passwd }),
            _ => Err(GlideError::NoApiCredentialsFound),
        },
    }
}

impl VarOrErr for CredentialType {
    /// The value of `var_name`, or `NoApiCredentialsFound`.
    fn var_or_err(env: &Environment, var_name: &str) -> (r: Result<String, GlideError>)
        ensures
            view_of(r) == var_or(env@, var_name@, GlideError::NoApiCredentialsFound),
    {
        match env.var(var_name) {
            Some(value) => Ok(value),
            None => Err(GlideError::NoApiCredentialsFound),
        }
    }
}

impl CredentialType {
    /// Resolves the credentials that `env` configures.
    pub fn load_env_credentials(env: &Environment) -> (r: Result<CredentialType, GlideError>)
        ensures
            view_of(r) == credentials_in(env@),
    {
        let token = CredentialType::var_or_err(env, SNOW_API_TOKEN);
        match token {
            Ok(token) => Ok(CredentialType::Token(token)),
            Err(_) => {
                let user_name = match CredentialType::var_or_err(env, SNOW_API_USER) {
                    Ok(user_name) => user_name,
                    Err(e) => {
                        return Err(e);
                    },
                };
                let passwd = match CredentialType::var_or_err(env, SNOW_API_PASSWD) {
                    Ok(passwd) => passwd,
                    Err(e) => {
                        return Err(e);
                    },
                };
                Ok(CredentialType::Basic { user_name, passwd })
            },
        }
    }

    /// A copy of these credentials.
    pub fn duplicate(&self) -> (copy: CredentialType)
        ensures
            copy@ == self@,
    {
        match self {
            CredentialType::Basic { user_name, passwd } => CredentialType::Basic {
                user_name: user_name.clone(),
                passwd: passwd.clone(),
            },
            CredentialType::Token(token) => CredentialType::Token(token.clone()),
        }
    }
}

/// The credentials and the host of one instance.
#[derive(Debug)]
pub struct GlideRecordConfig {
    credentials: CredentialType,
    snow_instance: String,
}

/// What a `GlideRecordConfig` holds, as text.
pub struct ConfigView {
    pub credentials: CredentialView,
    pub snow_instance: Seq<char>,
}

impl View for GlideRecordConfig {
    type V = ConfigView;

    closed spec fn view(&self) -> ConfigView {
        ConfigView { credentials: self.credentials@, snow_instance: self.snow_instance@ }
    }
}

/// The configuration that `vars` holds: its credentials, then its instance
/// host. Missing credentials are reported before a missing host.
pub open spec fn config_in(vars: Seq<(Seq<char>, Seq<char>)>) -> Result<ConfigView, GlideError> {
    match credentials_in(vars) {
        Err(e) => Err(e),
        Ok(credentials) => match lookup(vars, SNOW_API_INSTANCE@) {
            Some(snow_instance) => Ok(ConfigView { credentials, snow_instance }),
            None => Err(GlideError::NoSnowInstanceFound),
        },
    }
}

impl VarOrErr for GlideRecordConfig {
    /// The value of `var_name`, or `NoSnowInstanceFound`.
    fn var_or_err(env: &Environment, var_name: &str) -> (r: Result<String, GlideError>)
        ensures
            view_of(r) == var_or(env@, var_name@, GlideError::NoSnowInstanceFound),
    {
        match env.var(var_name) {
            Some(value) => Ok(value),
            None => Err(GlideError::NoSnowInstanceFound),
        }
    }
}

impl GlideRecordConfig {
    /// Resolves the configuration that `env` holds.
    pub fn new_from_env_vars(env: &Environment) -> (r: Result<GlideRecordConfig, GlideError>)
        ensures
            view_of(r) == config_in(env@),
    {
        let credentials = match CredentialType::load_env_credentials(env) {
            Ok(credentials) => credentials,
            Err(e) => {
                return Err(e);
            },
        };
        let snow_instance = match GlideRecordConfig::var_or_err(env, SNOW_API_INSTANCE) {
            Ok(snow_instance) => snow_instance,
            Err(e) => {
                return Err(e);
            },
        };
        Ok(GlideRecordConfig { credentials, snow_instance })
    }

    /// A configuration made of the given host and credentials.
    pub fn new_with_credentials(snow_instance: String, credentials: CredentialType) -> (config:
        GlideRecordConfig)
        ensures
            config@ == (ConfigView { credentials: credentials@, snow_instance: snow_instance@ }),
    {
        GlideRecordConfig { credentials, snow_instance }
    }

    /// The instance host.
    pub fn snow_instance(&self) -> (host: &str)
        ensures
            host@ == self@.snow_instance,
    {
        self.snow_instance.as_str()
    }

    /// Replaces the instance host.
    pub fn set_snow_instance(&mut self, snow_instance: String)
        ensures
            final(self)@ == (ConfigView { snow_instance: snow_instance@, ..old(self)@ }),
    {
        self.snow_instance = snow_instance;
    }

    /// Replaces the credentials.
    pub fn set_credentials(&mut self, credentials: CredentialType)
        ensures
            final(self)@ == (ConfigView { credentials: credentials@, ..old(self)@ }),
    {
        self.credentials = credentials;
    }

    /// The credentials.
    pub fn credentials(&self) -> (credentials: &CredentialType)
        ensures
            credentials@ == self@.credentials,
    {
        &self.credentials
    }
}

} // verus!
