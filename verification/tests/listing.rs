use chat_completions::catalog::{Model, Provider};
use chat_completions::text::decimal_text;
use chat_completions::json::write_array;
use chat_completions::listing::{catalog_to_json, models};
use serde_json::Value;

#[test]
fn the_openai_catalog_as_json() {
    assert_eq!(
        models(Provider::OpenAi),
        "[{\"name\":\"gpt-4o\",\"aliases\":[\"4o\"]},\
         {\"name\":\"gpt-4\",\"aliases\":[\"4\"]},\
         {\"name\":\"gpt-4-1106-preview\",\"aliases\":[\"128k\"]},\
         {\"name\":\"gpt-4-32k\",\"aliases\":[\"32k\"]},\
         {\"name\":\"gpt-3.5-turbo\",\"aliases\":[\"35t\"]},\
         {\"name\":\"gpt-3.5-turbo-1106\",\"aliases\":[\"35t-1106\"]},\
         {\"name\":\"gpt-3.5-turbo-16k\",\"aliases\":[\"35t16k\"]},\
         {\"name\":\"gpt-3.5\",\"aliases\":[\"35\"]}]"
    );
}

#[test]
fn the_cloudflare_catalog_as_json() {
    assert_eq!(
        models(Provider::Cloudflare),
        "[{\"name\":\"@cf/meta/llama-3-8b-instruct\",\"aliases\":[\"llama-3-8b\"]},\
         {\"name\":\"@cf/meta/llama-2-7b-chat-fp16\",\"aliases\":[\"llama-2-7b\"]},\
         {\"name\":\"@cf/meta/llama-2-7b-chat-int8\",\"aliases\":[\"llama-2-7b-int8\"]},\
         {\"name\":\"@cf/mistral/mistral-7b-instruct-v0.1\",\"aliases\":[\"mistral-7b\"]},\
         {\"name\":\"@hf/thebloke/deepseek-coder-6.7b-base-awq\",\
         \"aliases\":[\"deepseek-coder-6.7b\"]},\
         {\"name\":\"@hf/thebloke/deepseek-coder-6.7b-instruct-awq\",\
         \"aliases\":[\"deepseek-coder-6.7b-instruct\"]},\
         {\"name\":\"@cf/deepseek-ai/deepseek-math-7b-base\",\"aliases\":[\"deepseek-math-7b\"]},\
         {\"name\":\"@cf/deepseek-ai/deepseek-math-7b-instruct\",\
         \"aliases\":[\"deepseek-math-7b-instruct\"]},\
         {\"name\":\"@cf/tiiuae/falcon-7b-instruct\",\"aliases\":[\"falcon-7b\"]},\
         {\"name\":\"@cf/google/gemma-2b-it-lora\",\"aliases\":[\"gemma-2b\"]}]"
    );
}

/// Holds a document to a catalog: the same models in the same order, each
/// with its name and its aliases and nothing else.
fn assert_reads_back(document: &str, catalog: &[Model]) {
    let value: Value = serde_json::from_str(document).unwrap();
    let entries = value.as_array().unwrap();
    assert_eq!(entries.len(), catalog.len());
    for (entry, model) in entries.iter().zip(catalog) {
        let members = entry.as_object().unwrap();
        assert_eq!(members.len(), 2);
        assert_eq!(members["name"].as_str(), Some(model.name));
        let aliases = members["aliases"].as_array().unwrap();
        assert_eq!(aliases.len(), model.aliases.len());
        for (alias, expected) in aliases.iter().zip(model.aliases) {
            assert_eq!(alias.as_str(), Some(expected));
        }
    }
}

#[test]
fn the_listing_reads_back_as_the_catalog() {
    for provider in [Provider::OpenAi, Provider::Cloudflare] {
        assert_reads_back(&models(provider), &provider.catalog());
    }
}

#[test]
fn a_listing_with_awkward_names_reads_back() {
    let catalog = vec![
        Model { name: "with \"quotes\"", aliases: ["back\\slash"] },
        Model { name: "line\nbreak", aliases: ["\u{1}\u{1f}"] },
        Model { name: "\u{fc}ber \u{1f600}", aliases: [""] },
    ];
    let document = catalog_to_json(&catalog);
    assert_reads_back(&document, &catalog);
    assert_eq!(
        document,
        "[{\"name\":\"with \\\"quotes\\\"\",\"aliases\":[\"back\\\\slash\"]},\
         {\"name\":\"line\\nbreak\",\"aliases\":[\"\\u0001\\u001f\"]},\
         {\"name\":\"\u{fc}ber \u{1f600}\",\"aliases\":[\"\"]}]"
    );
}

#[test]
fn one_model_as_json() {
    let model = Model { name: "gpt-4o", aliases: ["4o"] };
    assert_eq!(model.to_json(), "{\"name\":\"gpt-4o\",\"aliases\":[\"4o\"]}");
}

#[test]
fn an_empty_catalog_is_an_empty_array() {
    assert_eq!(catalog_to_json(&Vec::new()), "[]");
}

#[test]
fn arrays_put_commas_between_their_items() {
    assert_eq!(write_array(&Vec::new()), "[]");
    assert_eq!(write_array(&vec!["1".to_string()]), "[1]");
    assert_eq!(write_array(&vec!["1".to_string(), "\"two\"".to_string()]), "[1,\"two\"]");
    assert_eq!(
        write_array(&vec!["{}".to_string(), "[]".to_string(), "null".to_string()]),
        "[{},[],null]"
    );
}

#[test]
fn numbers_are_written_in_decimal() {
    assert_eq!(decimal_text(0), "0");
    assert_eq!(decimal_text(9), "9");
    assert_eq!(decimal_text(10), "10");
    assert_eq!(decimal_text(200), "200");
    assert_eq!(decimal_text(404), "404");
    assert_eq!(decimal_text(1001), "1001");
    assert_eq!(decimal_text(65535), "65535");
    for n in 0..=u16::MAX {
        assert_eq!(decimal_text(n), n.to_string());
    }
}
