//! The HTTP request that asks a provider for a completion.
//!
//! The request is built here and sent elsewhere: [`CompletionRequest`] holds
//! the address, the method, the headers and the body as plain text.

use crate::catalog::Provider;
use crate::config::Config;
use crate::json::{json_string, quote};
use vstd::prelude::*;

verus! {

/// A request, ready to be sent.
#[derive(Debug, PartialEq, Eq)]
pub struct CompletionRequest {
    pub url: String,
    pub method: &'static str,
    /// Name and value of each header, in the order in which they are set.
    pub headers: Vec<(String, String)>,
    pub body: String,
}

/// A [`CompletionRequest`] by its contents.
pub struct CompletionRequestView {
    pub url: Seq<char>,
    pub method: Seq<char>,
    pub headers: Seq<(Seq<char>, Seq<char>)>,
    pub body: Seq<char>,
}

impl View for CompletionRequest {
    type V = CompletionRequestView;

    open spec fn view(&self) -> CompletionRequestView {
        CompletionRequestView {
            url: self.url@,
            method: self.method@,
            headers: self.headers@.map_values(|h: (String, String)| (h.0@, h.1@)),
            body: self.body@,
        }
    }
}

impl Provider {
    /// Whether the provider's address names an account.
    pub open spec fn addresses_account(self) -> bool {
        self == Provider::Cloudflare
    }

    /// Whether the provider's address names an account, so that a
    /// configuration for it needs an `account_id`.
    pub fn needs_account_id(&self) -> (r: bool)
        ensures
            r == self.addresses_account(),
    {
        match self {
            Provider::OpenAi => false,
            Provider::Cloudflare => true,
        }
    }

    /// The address of the provider's chat-completion endpoint. The account
    /// is put in as it is given.
    pub open spec fn endpoint(self, account_id: Option<Seq<char>>) -> Seq<char> {
        match self {
            Provider::OpenAi => "https://api.openai.com/v1/chat/completions"@,
            Provider::Cloudflare => "https://api.cloudflare.com/client/v4/accounts/"@
                + account_id.unwrap() + "/ai/v1/chat/completions"@,
        }
    }

    /// The address of the provider's chat-completion endpoint.
    pub fn endpoint_url(&self, account_id: Option<&str>) -> (r: String)
        requires
            self.addresses_account() ==> account_id is Some,
        ensures
            r@ == self.endpoint(crate::text::chars_of(account_id)),
    {
        match self {
            Provider::OpenAi => "https://api.openai.com/v1/chat/completions".to_owned(),
            Provider::Cloudflare => {
                let mut url = "https://api.cloudflare.com/client/v4/accounts/".to_owned();
                url.append(account_id.unwrap());
                url.append("/ai/v1/chat/completions");
                url
            },
        }
    }
}

/// The value of the `Authorization` header for an API key.
pub open spec fn bearer(api_key: Seq<char>) -> Seq<char> {
    "Bearer "@ + api_key
}

/// The headers of a completion request.
pub open spec fn request_headers(api_key: Seq<char>) -> Seq<(Seq<char>, Seq<char>)> {
    seq![("Authorization"@, bearer(api_key)), ("Content-Type"@, "application/json"@)]
}

/// The JSON document that asks for a completion: the model, the
/// temperature, and two messages, the system's with the role and the user's
/// with the prompt. `temperature` is the temperature as a JSON number. The
/// members of each object stand in the order of their names.
pub open spec fn request_body(
    model: Seq<char>,
    temperature: Seq<char>,
    role: Seq<char>,
    prompt: Seq<char>,
) -> Seq<char> {
    "{\"messages\":[{\"content\":"@ + json_string(role) + ",\"role\":\"system\"},{\"content\":"@
        + json_string(prompt) + ",\"role\":\"user\"}],\"model\":"@ + json_string(model)
        + ",\"temperature\":"@ + temperature + "}"@
}

/// Writes the JSON document that asks for a completion.
pub fn write_request_body(model: &str, temperature: &str, role: &str, prompt: &str) -> (r: String)
    ensures
        r@ == request_body(model@, temperature@, role@, prompt@),
{
    let mut body = "{\"messages\":[{\"content\":".to_owned();
    body.append(quote(role).as_str());
    body.append(",\"role\":\"system\"},{\"content\":");
    body.append(quote(prompt).as_str());
    body.append(",\"role\":\"user\"}],\"model\":");
    body.append(quote(model).as_str());
    body.append(",\"temperature\":");
    body.append(temperature);
    body.append("}");
    body
}

/// The request that asks `provider` for a completion of `prompt` under
/// `config`.
pub open spec fn request_for(
    provider: Provider,
    config: crate::config::ConfigView,
    temperature: Seq<char>,
    prompt: Seq<char>,
) -> CompletionRequestView {
    CompletionRequestView {
        url: provider.endpoint(config.account_id),
        method: "POST"@,
        headers: request_headers(config.api_key),
        body: request_body(config.model.name@, temperature, config.role, prompt),
    }
}

/// Builds the request that asks `provider` for a completion of `prompt`.
///
/// `temperature` is the configured temperature written as a JSON number; it
/// is put into the body as it is given. A provider whose address names an
/// account needs the configuration to hold one.
pub fn completion_request(
    provider: Provider,
    config: &Config,
    temperature: &str,
    prompt: &str,
) -> (r: CompletionRequest)
    requires
        provider.addresses_account() ==> config.account_id is Some,
    ensures
        r@ == request_for(provider, config@, temperature@, prompt@),
{
    let url = match &config.account_id {
        Some(account_id) => provider.endpoint_url(Some(account_id.as_str())),
        None => provider.endpoint_url(None),
    };
    let mut authorization = "Bearer ".to_owned();
    authorization.append(config.api_key.as_str());
    let mut headers: Vec<(String, String)> = Vec::new();
    headers.push(("Authorization".to_owned(), authorization));
    headers.push(("Content-Type".to_owned(), "application/json".to_owned()));
    let body = write_request_body(config.model.name, temperature, config.role.as_str(), prompt);
    let request = CompletionRequest { url, method: "POST", headers, body };
    proof {
        assert(request@.headers =~= request_headers(config.api_key@));
    }
    request
}

} // verus!
