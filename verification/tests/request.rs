use chat_completions::catalog::Provider;
use chat_completions::config::{get_config_values, Config, RawConfig, TemperatureInput};
use chat_completions::request::{completion_request, write_request_body};
use serde_json::Value;

fn config(provider: Provider, account_id: Option<&str>, model: &str, role: Option<&str>) -> Config {
    let raw = RawConfig {
        api_key: Some("sk-secret".to_string()),
        account_id: account_id.map(str::to_string),
        model: Some(model.to_string()),
        temperature: TemperatureInput::Parsed(0.5f32.to_bits()),
        role: role.map(str::to_string),
    };
    get_config_values(provider, raw).unwrap()
}

/// The temperature of a configuration as a JSON number.
fn temperature_of(config: &Config) -> String {
    Value::from(f32::from_bits(config.temperature.bits())).to_string()
}

fn message(role: &str, content: &str) -> Value {
    let mut message = serde_json::Map::new();
    message.insert("content".to_string(), Value::from(content));
    message.insert("role".to_string(), Value::from(role));
    Value::Object(message)
}

/// The document as a JSON library writes it.
fn document(model: &str, temperature: f32, role: &str, prompt: &str) -> String {
    let mut root = serde_json::Map::new();
    root.insert(
        "messages".to_string(),
        Value::Array(vec![message("system", role), message("user", prompt)]),
    );
    root.insert("model".to_string(), Value::from(model));
    root.insert("temperature".to_string(), Value::from(temperature));
    Value::Object(root).to_string()
}

#[test]
fn the_openai_request_is_as_documented() {
    let config = config(Provider::OpenAi, None, "4", Some("Be brief."));
    let request = completion_request(Provider::OpenAi, &config, &temperature_of(&config), "Hi!");
    assert_eq!(request.url, "https://api.openai.com/v1/chat/completions");
    assert_eq!(request.method, "POST");
    assert_eq!(
        request.headers,
        vec![
            ("Authorization".to_string(), "Bearer sk-secret".to_string()),
            ("Content-Type".to_string(), "application/json".to_string()),
        ]
    );
    assert_eq!(
        request.body,
        "{\"messages\":[{\"content\":\"Be brief.\",\"role\":\"system\"},\
         {\"content\":\"Hi!\",\"role\":\"user\"}],\"model\":\"gpt-4\",\"temperature\":0.5}"
    );
}

#[test]
fn the_cloudflare_address_names_the_account() {
    let config = config(Provider::Cloudflare, Some("abc123"), "gemma-2b", None);
    let request =
        completion_request(Provider::Cloudflare, &config, &temperature_of(&config), "Hi!");
    assert_eq!(
        request.url,
        "https://api.cloudflare.com/client/v4/accounts/abc123/ai/v1/chat/completions"
    );
    assert_eq!(request.method, "POST");
    assert_eq!(request.headers[0].1, "Bearer sk-secret");
    assert_eq!(
        request.body,
        "{\"messages\":[{\"content\":\"\",\"role\":\"system\"},\
         {\"content\":\"Hi!\",\"role\":\"user\"}],\
         \"model\":\"@cf/google/gemma-2b-it-lora\",\"temperature\":0.5}"
    );
}

#[test]
fn the_openai_address_ignores_an_account() {
    let config = config(Provider::OpenAi, Some("abc123"), "gpt-4", None);
    let request = completion_request(Provider::OpenAi, &config, "0.5", "Hi!");
    assert_eq!(request.url, "https://api.openai.com/v1/chat/completions");
    assert_eq!(Provider::OpenAi.endpoint_url(None), request.url);
}

#[test]
fn only_cloudflare_needs_an_account() {
    assert!(!Provider::OpenAi.needs_account_id());
    assert!(Provider::Cloudflare.needs_account_id());
}

#[test]
fn quotes_and_backslashes_in_the_texts_are_escaped() {
    let body = write_request_body("m", "1.0", "say \"hi\"", "a\\b");
    assert_eq!(
        body,
        "{\"messages\":[{\"content\":\"say \\\"hi\\\"\",\"role\":\"system\"},\
         {\"content\":\"a\\\\b\",\"role\":\"user\"}],\"model\":\"m\",\"temperature\":1.0}"
    );
}

#[test]
fn control_characters_in_the_texts_are_escaped() {
    let body = write_request_body("m", "0.0", "\u{8}\t\n\u{c}\r", "\u{0}\u{1}\u{1f}\u{7f}");
    assert_eq!(
        body,
        "{\"messages\":[{\"content\":\"\\b\\t\\n\\f\\r\",\"role\":\"system\"},\
         {\"content\":\"\\u0000\\u0001\\u001f\u{7f}\",\"role\":\"user\"}],\
         \"model\":\"m\",\"temperature\":0.0}"
    );
}

#[test]
fn other_control_characters_are_written_in_hexadecimal() {
    let body = write_request_body("m", "0.0", "\u{b}\u{e}\u{10}", "\u{1a}\u{1b}\u{1e}");
    assert_eq!(
        body,
        "{\"messages\":[{\"content\":\"\\u000b\\u000e\\u0010\",\"role\":\"system\"},\
         {\"content\":\"\\u001a\\u001b\\u001e\",\"role\":\"user\"}],\
         \"model\":\"m\",\"temperature\":0.0}"
    );
}

#[test]
fn the_body_is_what_a_json_library_writes() {
    let texts = [
        "",
        "plain",
        "say \"hi\"",
        "back\\slash and /slash",
        "line\nbreak\ttab\r\u{8}\u{c}",
        "\u{0}\u{1}\u{b}\u{e}\u{1f} \u{7f}",
        "gr\u{fc}\u{df}e \u{4f60}\u{597d} \u{1f600}",
    ];
    for role in texts {
        for prompt in texts {
            for temperature in [0.0f32, 0.5, 0.7, 1.0, 1e-7] {
                let number = Value::from(temperature).to_string();
                let body = write_request_body("gpt-4o", &number, role, prompt);
                assert_eq!(body, document("gpt-4o", temperature, role, prompt));
            }
        }
    }
}

#[test]
fn the_body_reads_back_as_what_went_in() {
    let config = config(Provider::OpenAi, None, "gpt-4o", Some("Answer in \"French\".\n"));
    let prompt = "What is 2 + 2?\tUse \\ sparingly.";
    let request =
        completion_request(Provider::OpenAi, &config, &temperature_of(&config), prompt);
    let read: Value = serde_json::from_str(&request.body).unwrap();
    assert_eq!(read["model"], Value::from("gpt-4o"));
    assert_eq!(read["temperature"], Value::from(0.5f32));
    let messages = read["messages"].as_array().unwrap();
    assert_eq!(messages.len(), 2);
    assert_eq!(messages[0], message("system", "Answer in \"French\".\n"));
    assert_eq!(messages[1], message("user", prompt));
    assert_eq!(read.as_object().unwrap().len(), 3);
}
