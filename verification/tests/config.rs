use chat_completions::catalog::{Model, Provider};
use chat_completions::config::{get_config_values, RawConfig, TemperatureInput};
use chat_completions::error::ConfigError;

fn text(value: &str) -> Option<String> {
    Some(value.to_string())
}

fn half() -> TemperatureInput {
    TemperatureInput::Parsed(0.5f32.to_bits())
}

#[test]
fn a_full_configuration_is_taken_as_given() {
    let raw = RawConfig {
        api_key: text("sk-123"),
        account_id: None,
        model: text("35T"),
        temperature: half(),
        role: text("You are terse."),
    };
    let config = get_config_values(Provider::OpenAi, raw).unwrap();
    assert_eq!(config.api_key, "sk-123");
    assert_eq!(config.account_id, None);
    assert_eq!(config.model, Model { name: "gpt-3.5-turbo", aliases: ["35t"] });
    assert_eq!(f32::from_bits(config.temperature.bits()), 0.5);
    assert_eq!(config.role, "You are terse.");
}

#[test]
fn what_is_left_out_gets_its_default() {
    let raw = RawConfig {
        api_key: text("key"),
        account_id: None,
        model: None,
        temperature: TemperatureInput::Missing,
        role: None,
    };
    let config = get_config_values(Provider::OpenAi, raw).unwrap();
    assert_eq!(config.model.name, "gpt-4o");
    assert_eq!(f32::from_bits(config.temperature.bits()), 0.7);
    assert_eq!(config.role, "");

    let raw = RawConfig {
        api_key: text("key"),
        account_id: text("acct"),
        model: None,
        temperature: TemperatureInput::Missing,
        role: None,
    };
    let config = get_config_values(Provider::Cloudflare, raw).unwrap();
    assert_eq!(config.model.name, "@cf/meta/llama-3-8b-instruct");
    assert_eq!(config.account_id, text("acct"));
}

#[test]
fn without_an_api_key_nothing_else_matters() {
    let models = [None, text("gpt-4"), text("no such model")];
    let temperatures = [
        TemperatureInput::Missing,
        TemperatureInput::Unreadable,
        half(),
        TemperatureInput::Parsed(2.0f32.to_bits()),
    ];
    let roles = [None, text("role")];
    let accounts = [None, text("acct")];
    for provider in [Provider::OpenAi, Provider::Cloudflare] {
        for model in &models {
            for temperature in temperatures {
                for role in &roles {
                    for account_id in &accounts {
                        let raw = RawConfig {
                            api_key: None,
                            account_id: account_id.clone(),
                            model: model.clone(),
                            temperature,
                            role: role.clone(),
                        };
                        assert_eq!(
                            get_config_values(provider, raw),
                            Err(ConfigError::ApiKeyNotFound)
                        );
                    }
                }
            }
        }
    }
}

#[test]
fn an_unknown_model_is_refused() {
    let raw = RawConfig {
        api_key: text("key"),
        account_id: None,
        model: text("gpt-5"),
        temperature: half(),
        role: None,
    };
    assert_eq!(get_config_values(Provider::OpenAi, raw), Err(ConfigError::ModelNotFound));
}

#[test]
fn a_bad_temperature_is_refused() {
    let raw = RawConfig {
        api_key: text("key"),
        account_id: None,
        model: text("gpt-4"),
        temperature: TemperatureInput::Unreadable,
        role: None,
    };
    assert_eq!(get_config_values(Provider::OpenAi, raw), Err(ConfigError::TemperatureNotAFloat));

    let raw = RawConfig {
        api_key: text("key"),
        account_id: None,
        model: text("gpt-4"),
        temperature: TemperatureInput::Parsed(1.01f32.to_bits()),
        role: None,
    };
    assert_eq!(get_config_values(Provider::OpenAi, raw), Err(ConfigError::TemperatureOutOfRange));
}

#[test]
fn the_model_is_judged_before_the_temperature() {
    let raw = RawConfig {
        api_key: text("key"),
        account_id: None,
        model: text("gpt-5"),
        temperature: TemperatureInput::Unreadable,
        role: None,
    };
    assert_eq!(get_config_values(Provider::OpenAi, raw), Err(ConfigError::ModelNotFound));
}

#[test]
fn an_empty_api_key_is_still_an_api_key() {
    let raw = RawConfig {
        api_key: text(""),
        account_id: None,
        model: None,
        temperature: TemperatureInput::Missing,
        role: text(""),
    };
    let config = get_config_values(Provider::OpenAi, raw).unwrap();
    assert_eq!(config.api_key, "");
    assert_eq!(config.role, "");
}

#[test]
fn a_missing_account_is_carried_as_missing() {
    let raw = RawConfig {
        api_key: text("key"),
        account_id: None,
        model: text("gemma-2b"),
        temperature: half(),
        role: None,
    };
    let config = get_config_values(Provider::Cloudflare, raw).unwrap();
    assert_eq!(config.account_id, None);
    assert_eq!(config.model.name, "@cf/google/gemma-2b-it-lora");
}

#[test]
fn configuration_errors_say_what_is_wrong() {
    assert_eq!(ConfigError::ApiKeyNotFound.message(), "API key not found");
    assert_eq!(ConfigError::ModelNotFound.message(), "Model not found");
    assert_eq!(ConfigError::TemperatureNotAFloat.message(), "Temperature must be a float");
    assert_eq!(
        ConfigError::TemperatureOutOfRange.message(),
        "Temperature must be between 0.0 and 1.0"
    );
}

#[test]
fn configuration_errors_carry_a_code_that_is_not_zero() {
    for error in [
        ConfigError::ApiKeyNotFound,
        ConfigError::ModelNotFound,
        ConfigError::TemperatureNotAFloat,
        ConfigError::TemperatureOutOfRange,
    ] {
        assert_eq!(error.return_code(), 1);
    }
}
