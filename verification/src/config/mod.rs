//! The configuration of the service.

use vstd::prelude::*;
use crate::config::error::ConfigError;

pub mod error;

verus! {

/// The message for a missing password.
pub const PASSWORD_REQUIRED: &'static str = "STORE_PASSWORD is required to be set";

/// The user name of the store where `STORE_USERNAME` is not set.
pub const DEFAULT_USERNAME: &'static str = "vinyld";

/// The database where `STORE_DATABASE` is not set.
pub const DEFAULT_DATABASE: &'static str = "vinyld";

/// The host of the store where `STORE_HOST` is not set.
pub const DEFAULT_HOST: &'static str = "127.0.0.1";

/// The address to listen on where `SERVER_ADDRESS` is not set.
pub const DEFAULT_ADDRESS: &'static str = "127.0.0.1:8000";

/// How the store is reached.
#[derive(Debug)]
pub struct StoreOptions {
    pub username: String,
    pub password: String,
    pub database: String,
    pub host: String,
}

/// Where the service listens.
#[derive(Debug)]
pub struct ServerOptions {
    pub address: String,
}

/// The whole configuration.
#[derive(Debug)]
pub struct Config {
    pub server: ServerOptions,
    pub store: StoreOptions,
}

/// What a [`Config`] holds, as plain text.
pub ghost struct ConfigView {
    pub address: Seq<char>,
    pub username: Seq<char>,
    pub password: Seq<char>,
    pub database: Seq<char>,
    pub host: Seq<char>,
}

impl View for Config {
    type V = ConfigView;

    open spec fn view(&self) -> ConfigView {
        ConfigView {
            address: self.server.address@,
            username: self.store.username@,
            password: self.store.password@,
            database: self.store.database@,
            host: self.store.host@,
        }
    }
}

impl Clone for StoreOptions {
    fn clone(&self) -> (copy: Self)
        ensures
            copy == *self,
    {
        StoreOptions {
            username: self.username.clone(),
            password: self.password.clone(),
            database: self.database.clone(),
            host: self.host.clone(),
        }
    }
}

impl Clone for ServerOptions {
    fn clone(&self) -> (copy: Self)
        ensures
            copy == *self,
    {
        ServerOptions { address: self.address.clone() }
    }
}

impl Clone for Config {
    fn clone(&self) -> (copy: Self)
        ensures
            copy == *self,
    {
        Config { server: self.server.clone(), store: self.store.clone() }
    }
}

/// The value of a variable, or the fallback where the variable is not set.
pub open spec fn value_or(variable: Option<String>, fallback: Seq<char>) -> Seq<char> {
    match variable {
        Some(value) => value@,
        None => fallback,
    }
}

fn or_fallback(variable: Option<String>, fallback: &str) -> (value: String)
    ensures
        value@ == value_or(variable, fallback@),
{
    match variable {
        Some(value) => value,
        None => fallback.to_owned(),
    }
}

impl Config {
    /// Builds the configuration from the values of the five variables of the
    /// environment, each `None` where the variable is not set.
    ///
    /// The password of the store has no fallback: without it there is no
    /// configuration. Each of the others falls back to its default.
    pub fn from_vars(
        store_password: Option<String>,
        store_username: Option<String>,
        store_database: Option<String>,
        store_host: Option<String>,
        server_address: Option<String>,
    ) -> (config: Result<Config, ConfigError>)
        ensures
            config.is_ok() == store_password.is_some(),
            config.is_err() ==> config.unwrap_err().spec_message() == PASSWORD_REQUIRED@,
            config.is_ok() ==> config.unwrap()@ == (ConfigView {
                address: value_or(server_address, DEFAULT_ADDRESS@),
                username: value_or(store_username, DEFAULT_USERNAME@),
                password: store_password.unwrap()@,
                database: value_or(store_database, DEFAULT_DATABASE@),
                host: value_or(store_host, DEFAULT_HOST@),
            }),
    {
        let password = match store_password {
            Some(password) => password,
            None => {
                return Err(ConfigError::new(PASSWORD_REQUIRED));
            },
        };
        Ok(
            Config {
                store: StoreOptions {
                    username: or_fallback(store_username, DEFAULT_USERNAME),
                    password,
                    database: or_fallback(store_database, DEFAULT_DATABASE),
                    host: or_fallback(store_host, DEFAULT_HOST),
                },
                server: ServerOptions { address: or_fallback(server_address, DEFAULT_ADDRESS) },
            },
        )
    }
}

} // verus!
