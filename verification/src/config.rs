//! From the raw values of a configuration to a checked one.
//!
//! The caller looks the five keys up (`api_key`, `account_id`, `model`,
//! `temperature`, `role`) and hands over what it found. The temperature
//! comes as a [`TemperatureInput`]: reading a number is the caller's part,
//! judging it is done here.

use crate::catalog::{resolve_model, resolved_model, Model, Provider};
use crate::error::ConfigError;
use crate::temperature::{in_unit_interval, Temperature, DEFAULT_TEMPERATURE};
use crate::text::option_chars;
use vstd::prelude::*;

verus! {

/// What the configuration holds under `temperature`.
#[derive(Clone, Copy, Debug, PartialEq, Eq, Structural)]
pub enum TemperatureInput {
    /// Nothing.
    Missing,
    /// A text that does not read as a floating-point number.
    Unreadable,
    /// A text that reads as the single-precision number with this bit
    /// pattern.
    Parsed(u32),
}

/// The values of a configuration as they were found, each one optional.
#[derive(Debug)]
pub struct RawConfig {
    pub api_key: Option<String>,
    /// Asked for by providers that address an account; see
    /// [`Provider::needs_account_id`].
    pub account_id: Option<String>,
    pub model: Option<String>,
    pub temperature: TemperatureInput,
    pub role: Option<String>,
}

/// A configuration that passed the checks of [`get_config_values`].
#[derive(Debug, PartialEq, Eq)]
pub struct Config {
    pub api_key: String,
    pub account_id: Option<String>,
    pub model: Model,
    pub temperature: Temperature,
    /// The system role; empty when none was configured.
    pub role: String,
}

/// A [`Config`] by its contents: texts as characters, the temperature as its
/// bit pattern.
pub struct ConfigView {
    pub api_key: Seq<char>,
    pub account_id: Option<Seq<char>>,
    pub model: Model,
    pub temperature: u32,
    pub role: Seq<char>,
}

impl View for Config {
    type V = ConfigView;

    open spec fn view(&self) -> ConfigView {
        ConfigView {
            api_key: self.api_key@,
            account_id: option_chars(self.account_id),
            model: self.model,
            temperature: self.temperature@,
            role: self.role@,
        }
    }
}

/// The temperature that an input stands for: the default when there is
/// none, else the number that was read if it lies between 0.0 and 1.0.
pub open spec fn chosen_temperature(input: TemperatureInput) -> Result<u32, ConfigError> {
    match input {
        TemperatureInput::Missing => Ok(DEFAULT_TEMPERATURE),
        TemperatureInput::Unreadable => Err(ConfigError::TemperatureNotAFloat),
        TemperatureInput::Parsed(bits) => if in_unit_interval(bits) {
            Ok(bits)
        } else {
            Err(ConfigError::TemperatureOutOfRange)
        },
    }
}

/// The temperature that an input stands for, or why there is none.
pub fn choose_temperature(input: TemperatureInput) -> (r: Result<Temperature, ConfigError>)
    ensures
        match r {
            Ok(t) => chosen_temperature(input) == Ok::<u32, ConfigError>(t@) && in_unit_interval(
                t@,
            ),
            Err(e) => chosen_temperature(input) == Err::<u32, ConfigError>(e),
        },
{
    match input {
        TemperatureInput::Missing => Ok(Temperature::default_value()),
        TemperatureInput::Unreadable => Err(ConfigError::TemperatureNotAFloat),
        TemperatureInput::Parsed(bits) => Temperature::from_bits(bits),
    }
}

/// What checking `raw` against `catalog` comes to. The checks run in this
/// order, and the first that fails decides: the API key must be there, the
/// model must resolve, the temperature must be acceptable. A missing role
/// is the empty role.
pub open spec fn config_values(catalog: Seq<Model>, raw: RawConfig) -> Result<
    ConfigView,
    ConfigError,
> {
    match raw.api_key {
        None => Err(ConfigError::ApiKeyNotFound),
        Some(api_key) => match resolved_model(catalog, option_chars(raw.model)) {
            Err(e) => Err(e),
            Ok(model) => match chosen_temperature(raw.temperature) {
                Err(e) => Err(e),
                Ok(temperature) => Ok(
                    ConfigView {
                        api_key: api_key@,
                        account_id: option_chars(raw.account_id),
                        model,
                        temperature,
                        role: match raw.role {
                            Some(role) => role@,
                            None => Seq::empty(),
                        },
                    },
                ),
            },
        },
    }
}

/// Checks the raw values of a configuration for `provider`.
///
/// Without an API key this fails whatever else was given. In a checked
/// configuration the model is an entry of the provider's catalog, the first
/// one if no model was named, and the temperature lies between 0.0 and 1.0.
pub fn get_config_values(provider: Provider, raw: RawConfig) -> (r: Result<Config, ConfigError>)
    ensures
        match r {
            Ok(config) => config_values(provider.entries(), raw) == Ok::<ConfigView, ConfigError>(
                config@,
            ),
            Err(e) => config_values(provider.entries(), raw) == Err::<ConfigView, ConfigError>(e),
        },
        raw.api_key is None ==> r matches Err(ConfigError::ApiKeyNotFound),
        r matches Ok(config) ==> {
            &&& provider.entries().contains(config.model)
            &&& raw.model is None ==> config.model == provider.entries()[0]
            &&& in_unit_interval(config.temperature@)
        },
{
    let RawConfig { api_key, account_id, model, temperature, role } = raw;
    let api_key = match api_key {
        Some(key) => key,
        None => {
            return Err(ConfigError::ApiKeyNotFound);
        },
    };
    let catalog = provider.catalog();
    let resolved = match &model {
        Some(name) => resolve_model(&catalog, Some(name.as_str())),
        None => resolve_model(&catalog, None),
    };
    let model = match resolved {
        Ok(model) => model,
        Err(e) => {
            return Err(e);
        },
    };
    let temperature = match choose_temperature(temperature) {
        Ok(temperature) => temperature,
        Err(e) => {
            return Err(e);
        },
    };
    let role = match role {
        Some(role) => role,
        None => String::new(),
    };
    Ok(Config { api_key, account_id, model, temperature, role })
}

} // verus!
