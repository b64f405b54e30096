//! The settings of the service: where its database is and on which port it
//! listens, made from the two values that the environment gives for them.

use vstd::prelude::*;

verus! {

/// The settings of the service.
#[derive(Debug, PartialEq, Eq)]
pub struct AppConfig {
    pub database_url: String,
    /// The port on which the HTTP server listens.
    pub server_port: i64,
}

/// The mathematical value of an [`AppConfig`].
pub struct AppConfigView {
    pub database_url: Seq<char>,
    pub server_port: i64,
}

impl View for AppConfig {
    type V = AppConfigView;

    open spec fn view(&self) -> AppConfigView {
        AppConfigView { database_url: self.database_url@, server_port: self.server_port }
    }
}

/// Why the settings could not be made.
#[derive(Clone, Copy, Debug, PartialEq, Eq, Structural)]
pub enum SettingsError {
    /// The port is set, to something that stands for no integer.
    InvalidServerPort,
    /// The address of the database is not set.
    MissingDatabaseUrl,
    /// The port is not set.
    MissingServerPort,
}

/// What is known of the port once its text, if any, has been read.
#[derive(Clone, Copy, Debug, PartialEq, Eq, Structural)]
pub enum PortSetting {
    /// The port is not set.
    Missing,
    /// The port is set, to something that stands for no integer.
    Invalid,
    /// The port is set to this integer.
    Port(i64),
}

/// `config::ConfigError`, the error of the `config` crate. Nothing is known
/// of what it holds.
#[verifier::external_type_specification]
#[verifier::external_body]
pub struct ExConfigError(config::ConfigError);

/// The integer that the `config` crate reads out of the text of a setting,
/// by `Value::into_int` on a string value; `None` where it reads none.
pub uninterp spec fn setting_as_int(text: Seq<char>) -> Option<i64>;

/// `config::Value::into_int` on the string value `text`, which `Value::from`
/// makes. The crate decides by the text alone: it knows a few words for 1
/// and for 0, and otherwise parses the text as an `i64`. The contract gives
/// that decision its name and claims nothing more of it.
#[verifier::external_body]
fn text_into_int(text: &str) -> (converted: Result<i64, config::ConfigError>)
    ensures
        match converted {
            Ok(number) => setting_as_int(text@) == Some(number),
            Err(_) => setting_as_int(text@) is None,
        },
{
    config::Value::from(text).into_int()
}

/// What the text of the port setting says of the port.
pub open spec fn port_from_text(text: Option<Seq<char>>) -> PortSetting {
    match text {
        None => PortSetting::Missing,
        Some(text) => match setting_as_int(text) {
            Some(port) => PortSetting::Port(port),
            None => PortSetting::Invalid,
        },
    }
}

/// The settings that the two values make, or what is wrong with them. An
/// invalid port is reported before a missing address, and that before a
/// missing port.
pub open spec fn config_of(database_url: Option<Seq<char>>, server_port: PortSetting) -> Result<
    AppConfigView,
    SettingsError,
> {
    match (server_port, database_url) {
        (PortSetting::Invalid, _) => Err(SettingsError::InvalidServerPort),
        (_, None) => Err(SettingsError::MissingDatabaseUrl),
        (PortSetting::Missing, Some(_)) => Err(SettingsError::MissingServerPort),
        (PortSetting::Port(port), Some(url)) => Ok(
            AppConfigView { database_url: url, server_port: port },
        ),
    }
}

/// `made` is the result `expected`, an `AppConfig` taken by its value.
pub open spec fn is_config(
    made: Result<AppConfig, SettingsError>,
    expected: Result<AppConfigView, SettingsError>,
) -> bool {
    match expected {
        Ok(config) => made matches Ok(c) && c@ == config,
        Err(error) => made == Err::<AppConfig, SettingsError>(error),
    }
}

impl PortSetting {
    /// Reads the text of the port setting, if there is one.
    pub fn read(text: &Option<String>) -> (port: PortSetting)
        ensures
            port == port_from_text(text.deep_view()),
    {
        match text {
            None => PortSetting::Missing,
            Some(text) => match text_into_int(text.as_str()) {
                Ok(port) => PortSetting::Port(port),
                Err(_) => PortSetting::Invalid,
            },
        }
    }
}

impl AppConfig {
    /// The settings with this address and this port, or what is wrong with
    /// the two.
    pub fn from_settings(database_url: Option<String>, server_port: PortSetting) -> (made: Result<
        AppConfig,
        SettingsError,
    >)
        ensures
            is_config(made, config_of(database_url.deep_view(), server_port)),
    {
        match server_port {
            PortSetting::Invalid => Err(SettingsError::InvalidServerPort),
            PortSetting::Missing => match database_url {
                None => Err(SettingsError::MissingDatabaseUrl),
                Some(_) => Err(SettingsError::MissingServerPort),
            },
            PortSetting::Port(port) => match database_url {
                None => Err(SettingsError::MissingDatabaseUrl),
                Some(url) => Ok(AppConfig { database_url: url, server_port: port }),
            },
        }
    }
}

/// The settings of the service, from the texts that the environment holds
/// for `database_url` and `server_port`, `None` for one that is not set.
pub fn create_config(database_url: Option<String>, server_port: Option<String>) -> (made: Result<
    AppConfig,
    SettingsError,
>)
    ensures
        is_config(made, config_of(database_url.deep_view(), port_from_text(server_port.deep_view()))),
{
    let port = PortSetting::read(&server_port);
    AppConfig::from_settings(database_url, port)
}

} // verus!
