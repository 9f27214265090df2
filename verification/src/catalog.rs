//! The fixed catalogs of models, and how a name a user typed is resolved
//! against one of them.

use crate::error::ConfigError;
use crate::text::{chars_of, lemma_plain_is_lowercase, lowercase, lowercase_text, plain};
use vstd::prelude::*;

verus! {

/// One entry of a catalog: the provider's name for a model, and the short
/// names that users may type instead.
#[derive(Clone, Copy, Debug, PartialEq, Eq)]
pub struct Model {
    pub name: &'static str,
    pub aliases: [&'static str; 1],
}

impl Model {
    /// Whether `input`, whatever its case, is this model's name or one of its
    /// aliases.
    pub open spec fn answers_to(self, input: Seq<char>) -> bool {
        ||| lowercase(self.name@) == lowercase(input)
        ||| exists|k: int|
            0 <= k < self.aliases@.len() && lowercase(#[trigger] self.aliases@[k]@) == lowercase(
                input,
            )
    }

    /// Whether this model goes by `wanted`, a name that is already in
    /// lowercase form.
    fn goes_by(&self, wanted: &String) -> (r: bool)
        ensures
            r == (lowercase(self.name@) == wanted@ || exists|k: int|
                0 <= k < self.aliases@.len() && lowercase(#[trigger] self.aliases@[k]@)
                    == wanted@),
    {
        if lowercase_text(self.name) == *wanted {
            return true;
        }
        let mut k: usize = 0;
        while k < 1
            invariant
                k <= 1,
                self.aliases@.len() == 1,
                forall|j: int| 0 <= j < k ==> lowercase(#[trigger] self.aliases@[j]@) != wanted@,
            decreases 1 - k,
        {
            if lowercase_text(self.aliases[k]) == *wanted {
                return true;
            }
            k += 1;
        }
        false
    }
}

/// The first entry of `catalog` that answers to `input`, if there is one.
pub open spec fn find_model(catalog: Seq<Model>, input: Seq<char>) -> Option<Model>
    decreases catalog.len(),
{
    if catalog.len() == 0 {
        None
    } else if catalog[0].answers_to(input) {
        Some(catalog[0])
    } else {
        find_model(catalog.drop_first(), input)
    }
}

/// The model that a configuration means: the catalog's first entry when no
/// name was given, else the first entry that answers to the name.
pub open spec fn resolved_model(catalog: Seq<Model>, input: Option<Seq<char>>) -> Result<
    Model,
    ConfigError,
> {
    match input {
        None => Ok(catalog[0]),
        Some(name) => match find_model(catalog, name) {
            Some(model) => Ok(model),
            None => Err(ConfigError::ModelNotFound),
        },
    }
}

/// Resolves the model name of a configuration against `catalog`.
///
/// Matching ignores case and is exact otherwise. With no name given the
/// catalog's first entry is the default, so the catalog must then have one.
pub fn resolve_model(catalog: &Vec<Model>, input: Option<&str>) -> (r: Result<Model, ConfigError>)
    requires
        input is None ==> catalog@.len() > 0,
    ensures
        r == resolved_model(catalog@, chars_of(input)),
        input is None ==> r == Ok::<Model, ConfigError>(catalog@[0]),
        r matches Ok(model) ==> catalog@.contains(model),
{
    match input {
        None => Ok(catalog[0]),
        Some(name) => {
            let wanted = lowercase_text(name);
            let mut i: usize = 0;
            assert(catalog@.skip(0) =~= catalog@);
            while i < catalog.len()
                invariant
                    i <= catalog@.len(),
                    input == Some(name),
                    wanted@ == lowercase(name@),
                    find_model(catalog@, name@) == find_model(catalog@.skip(i as int), name@),
                decreases catalog@.len() - i,
            {
                let model = catalog[i];
                let ghost rest = catalog@.skip(i as int);
                assert(rest[0] == catalog@[i as int]);
                assert(rest.drop_first() =~= catalog@.skip(i + 1));
                if model.goes_by(&wanted) {
                    return Ok(model);
                }
                i += 1;
            }
            Err(ConfigError::ModelNotFound)
        },
    }
}

/// The providers whose chat-completion endpoints this library knows.
#[derive(Clone, Copy, Debug, PartialEq, Eq, Structural)]
pub enum Provider {
    OpenAi,
    Cloudflare,
}

/// The models offered through OpenAI, the default first.
pub open spec fn openai_entries() -> Seq<Model> {
    seq![
        Model { name: "gpt-4o", aliases: ["4o"] },
        Model { name: "gpt-4", aliases: ["4"] },
        Model { name: "gpt-4-1106-preview", aliases: ["128k"] },
        Model { name: "gpt-4-32k", aliases: ["32k"] },
        Model { name: "gpt-3.5-turbo", aliases: ["35t"] },
        Model { name: "gpt-3.5-turbo-1106", aliases: ["35t-1106"] },
        Model { name: "gpt-3.5-turbo-16k", aliases: ["35t16k"] },
        Model { name: "gpt-3.5", aliases: ["35"] },
    ]
}

/// The models offered through Cloudflare Workers AI, the default first.
pub open spec fn cloudflare_entries() -> Seq<Model> {
    seq![
        Model { name: "@cf/meta/llama-3-8b-instruct", aliases: ["llama-3-8b"] },
        Model { name: "@cf/meta/llama-2-7b-chat-fp16", aliases: ["llama-2-7b"] },
        Model { name: "@cf/meta/llama-2-7b-chat-int8", aliases: ["llama-2-7b-int8"] },
        Model { name: "@cf/mistral/mistral-7b-instruct-v0.1", aliases: ["mistral-7b"] },
        Model { name: "@hf/thebloke/deepseek-coder-6.7b-base-awq", aliases: ["deepseek-coder-6.7b"] },
        Model {
            name: "@hf/thebloke/deepseek-coder-6.7b-instruct-awq",
            aliases: ["deepseek-coder-6.7b-instruct"],
        },
        Model { name: "@cf/deepseek-ai/deepseek-math-7b-base", aliases: ["deepseek-math-7b"] },
        Model {
            name: "@cf/deepseek-ai/deepseek-math-7b-instruct",
            aliases: ["deepseek-math-7b-instruct"],
        },
        Model { name: "@cf/tiiuae/falcon-7b-instruct", aliases: ["falcon-7b"] },
        Model { name: "@cf/google/gemma-2b-it-lora", aliases: ["gemma-2b"] },
    ]
}

impl Provider {
    /// The provider's catalog.
    pub open spec fn entries(self) -> Seq<Model> {
        match self {
            Provider::OpenAi => openai_entries(),
            Provider::Cloudflare => cloudflare_entries(),
        }
    }

    /// The provider's catalog. Its first entry is the default model.
    pub fn catalog(&self) -> (r: Vec<Model>)
        ensures
            r@ == self.entries(),
            r@.len() > 0,
    {
        match self {
            Provider::OpenAi => {
                let v = vec![
                    Model { name: "gpt-4o", aliases: ["4o"] },
                    Model { name: "gpt-4", aliases: ["4"] },
                    Model { name: "gpt-4-1106-preview", aliases: ["128k"] },
                    Model { name: "gpt-4-32k", aliases: ["32k"] },
                    Model { name: "gpt-3.5-turbo", aliases: ["35t"] },
                    Model { name: "gpt-3.5-turbo-1106", aliases: ["35t-1106"] },
                    Model { name: "gpt-3.5-turbo-16k", aliases: ["35t16k"] },
                    Model { name: "gpt-3.5", aliases: ["35"] },
                ];
                assert(v@ =~= openai_entries());
                v
            },
            Provider::Cloudflare => {
                let v = vec![
                    Model { name: "@cf/meta/llama-3-8b-instruct", aliases: ["llama-3-8b"] },
                    Model { name: "@cf/meta/llama-2-7b-chat-fp16", aliases: ["llama-2-7b"] },
                    Model { name: "@cf/meta/llama-2-7b-chat-int8", aliases: ["llama-2-7b-int8"] },
                    Model { name: "@cf/mistral/mistral-7b-instruct-v0.1", aliases: ["mistral-7b"] },
                    Model {
                        name: "@hf/thebloke/deepseek-coder-6.7b-base-awq",
                        aliases: ["deepseek-coder-6.7b"],
                    },
                    Model {
                        name: "@hf/thebloke/deepseek-coder-6.7b-instruct-awq",
                        aliases: ["deepseek-coder-6.7b-instruct"],
                    },
                    Model {
                        name: "@cf/deepseek-ai/deepseek-math-7b-base",
                        aliases: ["deepseek-math-7b"],
                    },
                    Model {
                        name: "@cf/deepseek-ai/deepseek-math-7b-instruct",
                        aliases: ["deepseek-math-7b-instruct"],
                    },
                    Model { name: "@cf/tiiuae/falcon-7b-instruct", aliases: ["falcon-7b"] },
                    Model { name: "@cf/google/gemma-2b-it-lora", aliases: ["gemma-2b"] },
                ];
                assert(v@ =~= cloudflare_entries());
                v
            },
        }
    }
}

/// A catalog in which no text is answered to by two entries.
pub open spec fn unambiguous(catalog: Seq<Model>) -> bool {
    forall|i: int, j: int, input: Seq<char>|
        0 <= i < j < catalog.len() ==> !(#[trigger] catalog[i].answers_to(input)
            && #[trigger] catalog[j].answers_to(input))
}

/// `find_model` returns the entry that answers to `input` and has no entry
/// before it that does.
pub proof fn lemma_find_model_first(catalog: Seq<Model>, input: Seq<char>, i: int)
    requires
        0 <= i < catalog.len(),
        catalog[i].answers_to(input),
        forall|j: int| 0 <= j < i ==> !(#[trigger] catalog[j]).answers_to(input),
    ensures
        find_model(catalog, input) == Some(catalog[i]),
    decreases i,
{
    if i > 0 {
        let rest = catalog.drop_first();
        assert(rest[i - 1] == catalog[i]);
        assert forall|j: int| 0 <= j < i - 1 implies !(#[trigger] rest[j]).answers_to(input) by {
            assert(rest[j] == catalog[j + 1]);
        }
        lemma_find_model_first(rest, input, i - 1);
    }
}

/// A name that no entry of the catalog answers to is not found, and so is
/// turned down.
pub proof fn lemma_unlisted_name_fails(catalog: Seq<Model>, input: Seq<char>)
    requires
        forall|i: int| 0 <= i < catalog.len() ==> !(#[trigger] catalog[i]).answers_to(input),
    ensures
        find_model(catalog, input) is None,
        resolved_model(catalog, Some(input)) == Err::<Model, ConfigError>(
            ConfigError::ModelNotFound,
        ),
    decreases catalog.len(),
{
    if catalog.len() > 0 {
        let rest = catalog.drop_first();
        assert(!catalog[0].answers_to(input));
        assert forall|i: int| 0 <= i < rest.len() implies !(#[trigger] rest[i]).answers_to(
            input,
        ) by {
            assert(rest[i] == catalog[i + 1]);
        }
        lemma_unlisted_name_fails(rest, input);
    }
}

/// Resolution ignores case: two texts with one lowercase form resolve alike.
pub proof fn lemma_resolution_ignores_case(catalog: Seq<Model>, a: Seq<char>, b: Seq<char>)
    requires
        lowercase(a) == lowercase(b),
    ensures
        find_model(catalog, a) == find_model(catalog, b),
        resolved_model(catalog, Some(a)) == resolved_model(catalog, Some(b)),
    decreases catalog.len(),
{
    if catalog.len() > 0 {
        assert(catalog[0].answers_to(a) == catalog[0].answers_to(b));
        lemma_resolution_ignores_case(catalog.drop_first(), a, b);
    }
}

/// In an unambiguous catalog, a text that an entry answers to (its name or
/// one of its aliases, in any case) resolves to that very entry.
pub proof fn lemma_listed_name_resolves(catalog: Seq<Model>, i: int, input: Seq<char>)
    requires
        unambiguous(catalog),
        0 <= i < catalog.len(),
        catalog[i].answers_to(input),
    ensures
        resolved_model(catalog, Some(input)) == Ok::<Model, ConfigError>(catalog[i]),
{
    lemma_find_model_first(catalog, input, i);
}

/// An entry answers to its own name and to each of its aliases.
pub proof fn lemma_answers_to_own_names(model: Model, k: int)
    requires
        0 <= k < model.aliases@.len(),
    ensures
        model.answers_to(model.name@),
        model.answers_to(model.aliases@[k]@),
{
}

/// An entry whose name and alias are plain answers to exactly the texts
/// whose lowercase form is that name or that alias.
proof fn lemma_plain_entry(model: Model, input: Seq<char>)
    requires
        plain(model.name@),
        plain(model.aliases@[0]@),
    ensures
        model.answers_to(input) <==> (lowercase(input) == model.name@ || lowercase(input)
            == model.aliases@[0]@),
{
    lemma_plain_is_lowercase(model.name@);
    lemma_plain_is_lowercase(model.aliases@[0]@);
    assert(model.aliases@.len() == 1);
}

/// Every name and alias of the OpenAI catalog is plain.
proof fn lemma_openai_plain(i: int)
    requires
        0 <= i < openai_entries().len(),
    ensures
        plain(openai_entries()[i].name@),
        plain(openai_entries()[i].aliases@[0]@),
{
    reveal_strlit("gpt-4o");
    reveal_strlit("4o");
    reveal_strlit("gpt-4");
    reveal_strlit("4");
    reveal_strlit("gpt-4-1106-preview");
    reveal_strlit("128k");
    reveal_strlit("gpt-4-32k");
    reveal_strlit("32k");
    reveal_strlit("gpt-3.5-turbo");
    reveal_strlit("35t");
    reveal_strlit("gpt-3.5-turbo-1106");
    reveal_strlit("35t-1106");
    reveal_strlit("gpt-3.5-turbo-16k");
    reveal_strlit("35t16k");
    reveal_strlit("gpt-3.5");
    reveal_strlit("35");
}

/// No text is answered to by two entries of the OpenAI catalog.
proof fn lemma_openai_unambiguous()
    ensures
        unambiguous(openai_entries()),
{
    let c = openai_entries();
    reveal_strlit("gpt-4o");
    reveal_strlit("4o");
    reveal_strlit("gpt-4");
    reveal_strlit("4");
    reveal_strlit("gpt-4-1106-preview");
    reveal_strlit("128k");
    reveal_strlit("gpt-4-32k");
    reveal_strlit("32k");
    reveal_strlit("gpt-3.5-turbo");
    reveal_strlit("35t");
    reveal_strlit("gpt-3.5-turbo-1106");
    reveal_strlit("35t-1106");
    reveal_strlit("gpt-3.5-turbo-16k");
    reveal_strlit("35t16k");
    reveal_strlit("gpt-3.5");
    reveal_strlit("35");
    // Most keys differ in length already.
    assert("gpt-4o"@.len() == 6 && "4o"@.len() == 2);
    assert("gpt-4"@.len() == 5 && "4"@.len() == 1);
    assert("gpt-4-1106-preview"@.len() == 18 && "128k"@.len() == 4);
    assert("gpt-4-32k"@.len() == 9 && "32k"@.len() == 3);
    assert("gpt-3.5-turbo"@.len() == 13 && "35t"@.len() == 3);
    assert("gpt-3.5-turbo-1106"@.len() == 18 && "35t-1106"@.len() == 8);
    assert("gpt-3.5-turbo-16k"@.len() == 17 && "35t16k"@.len() == 6);
    assert("gpt-3.5"@.len() == 7 && "35"@.len() == 2);
    // Keys of one length differ in a character.
    assert("gpt-4o"@[0] != "35t16k"@[0]);
    assert("4o"@[0] != "35"@[0]);
    assert("gpt-4-1106-preview"@[4] != "gpt-3.5-turbo-1106"@[4]);
    assert("32k"@[1] != "35t"@[1]);
    assert forall|i: int, j: int, input: Seq<char>| 0 <= i < j < c.len() implies !(
    #[trigger] c[i].answers_to(input) && #[trigger] c[j].answers_to(input)) by {
        lemma_openai_plain(i);
        lemma_openai_plain(j);
        lemma_plain_entry(c[i], input);
        lemma_plain_entry(c[j], input);
    }
}

/// Every name and alias of the Cloudflare catalog is plain.
proof fn lemma_cloudflare_plain(i: int)
    requires
        0 <= i < cloudflare_entries().len(),
    ensures
        plain(cloudflare_entries()[i].name@),
        plain(cloudflare_entries()[i].aliases@[0]@),
{
    reveal_strlit("@cf/meta/llama-3-8b-instruct");
    reveal_strlit("llama-3-8b");
    reveal_strlit("@cf/meta/llama-2-7b-chat-fp16");
    reveal_strlit("llama-2-7b");
    reveal_strlit("@cf/meta/llama-2-7b-chat-int8");
    reveal_strlit("llama-2-7b-int8");
    reveal_strlit("@cf/mistral/mistral-7b-instruct-v0.1");
    reveal_strlit("mistral-7b");
    reveal_strlit("@hf/thebloke/deepseek-coder-6.7b-base-awq");
    reveal_strlit("deepseek-coder-6.7b");
    reveal_strlit("@hf/thebloke/deepseek-coder-6.7b-instruct-awq");
    reveal_strlit("deepseek-coder-6.7b-instruct");
    reveal_strlit("@cf/deepseek-ai/deepseek-math-7b-base");
    reveal_strlit("deepseek-math-7b");
    reveal_strlit("@cf/deepseek-ai/deepseek-math-7b-instruct");
    reveal_strlit("deepseek-math-7b-instruct");
    reveal_strlit("@cf/tiiuae/falcon-7b-instruct");
    reveal_strlit("falcon-7b");
    reveal_strlit("@cf/google/gemma-2b-it-lora");
    reveal_strlit("gemma-2b");
}

/// No text is answered to by two entries of the Cloudflare catalog.
proof fn lemma_cloudflare_unambiguous()
    ensures
        unambiguous(cloudflare_entries()),
{
    let c = cloudflare_entries();
    reveal_strlit("@cf/meta/llama-3-8b-instruct");
    reveal_strlit("llama-3-8b");
    reveal_strlit("@cf/meta/llama-2-7b-chat-fp16");
    reveal_strlit("llama-2-7b");
    reveal_strlit("@cf/meta/llama-2-7b-chat-int8");
    reveal_strlit("llama-2-7b-int8");
    reveal_strlit("@cf/mistral/mistral-7b-instruct-v0.1");
    reveal_strlit("mistral-7b");
    reveal_strlit("@hf/thebloke/deepseek-coder-6.7b-base-awq");
    reveal_strlit("deepseek-coder-6.7b");
    reveal_strlit("@hf/thebloke/deepseek-coder-6.7b-instruct-awq");
    reveal_strlit("deepseek-coder-6.7b-instruct");
    reveal_strlit("@cf/deepseek-ai/deepseek-math-7b-base");
    reveal_strlit("deepseek-math-7b");
    reveal_strlit("@cf/deepseek-ai/deepseek-math-7b-instruct");
    reveal_strlit("deepseek-math-7b-instruct");
    reveal_strlit("@cf/tiiuae/falcon-7b-instruct");
    reveal_strlit("falcon-7b");
    reveal_strlit("@cf/google/gemma-2b-it-lora");
    reveal_strlit("gemma-2b");
    // Most keys differ in length already.
    assert("@cf/meta/llama-3-8b-instruct"@.len() == 28 && "llama-3-8b"@.len() == 10);
    assert("@cf/meta/llama-2-7b-chat-fp16"@.len() == 29 && "llama-2-7b"@.len() == 10);
    assert("@cf/meta/llama-2-7b-chat-int8"@.len() == 29 && "llama-2-7b-int8"@.len() == 15);
    assert("@cf/mistral/mistral-7b-instruct-v0.1"@.len() == 36 && "mistral-7b"@.len() == 10);
    assert("@hf/thebloke/deepseek-coder-6.7b-base-awq"@.len() == 41 && "deepseek-coder-6.7b"@.len() == 19);
    assert("@hf/thebloke/deepseek-coder-6.7b-instruct-awq"@.len() == 45 && "deepseek-coder-6.7b-instruct"@.len() == 28);
    assert("@cf/deepseek-ai/deepseek-math-7b-base"@.len() == 37 && "deepseek-math-7b"@.len() == 16);
    assert("@cf/deepseek-ai/deepseek-math-7b-instruct"@.len() == 41 && "deepseek-math-7b-instruct"@.len() == 25);
    assert("@cf/tiiuae/falcon-7b-instruct"@.len() == 29 && "falcon-7b"@.len() == 9);
    assert("@cf/google/gemma-2b-it-lora"@.len() == 27 && "gemma-2b"@.len() == 8);
    // Keys of one length differ in a character.
    assert("@cf/meta/llama-3-8b-instruct"@[0] != "deepseek-coder-6.7b-instruct"@[0]);
    assert("llama-3-8b"@[6] != "llama-2-7b"@[6]);
    assert("llama-3-8b"@[0] != "mistral-7b"@[0]);
    assert("@cf/meta/llama-2-7b-chat-fp16"@[25] != "@cf/meta/llama-2-7b-chat-int8"@[25]);
    assert("@cf/meta/llama-2-7b-chat-fp16"@[4] != "@cf/tiiuae/falcon-7b-instruct"@[4]);
    assert("llama-2-7b"@[0] != "mistral-7b"@[0]);
    assert("@cf/meta/llama-2-7b-chat-int8"@[4] != "@cf/tiiuae/falcon-7b-instruct"@[4]);
    assert("@hf/thebloke/deepseek-coder-6.7b-base-awq"@[1] != "@cf/deepseek-ai/deepseek-math-7b-instruct"@[1]);
    assert forall|i: int, j: int, input: Seq<char>| 0 <= i < j < c.len() implies !(
    #[trigger] c[i].answers_to(input) && #[trigger] c[j].answers_to(input)) by {
        lemma_cloudflare_plain(i);
        lemma_cloudflare_plain(j);
        lemma_plain_entry(c[i], input);
        lemma_plain_entry(c[j], input);
    }
}

/// In the catalog of either provider no text is answered to by two entries.
pub proof fn lemma_catalog_unambiguous(provider: Provider)
    ensures
        unambiguous(provider.entries()),
{
    match provider {
        Provider::OpenAi => lemma_openai_unambiguous(),
        Provider::Cloudflare => lemma_cloudflare_unambiguous(),
    }
}

/// In the catalog of either provider, a text that is an entry's name or one
/// of its aliases, in any case, resolves to that entry.
pub proof fn lemma_catalog_entry_resolves(provider: Provider, i: int, input: Seq<char>)
    requires
        0 <= i < provider.entries().len(),
        provider.entries()[i].answers_to(input),
    ensures
        resolved_model(provider.entries(), Some(input)) == Ok::<Model, ConfigError>(
            provider.entries()[i],
        ),
{
    lemma_catalog_unambiguous(provider);
    lemma_listed_name_resolves(provider.entries(), i, input);
}

/// In the catalog of either provider, the name of an entry and each of its
/// aliases resolve to that entry.
pub proof fn lemma_catalog_names_resolve(provider: Provider, i: int, k: int)
    requires
        0 <= i < provider.entries().len(),
        0 <= k < provider.entries()[i].aliases@.len(),
    ensures
        resolved_model(provider.entries(), Some(provider.entries()[i].name@)) == Ok::<
            Model,
            ConfigError,
        >(provider.entries()[i]),
        resolved_model(provider.entries(), Some(provider.entries()[i].aliases@[k]@)) == Ok::<
            Model,
            ConfigError,
        >(provider.entries()[i]),
{
    let model = provider.entries()[i];
    lemma_answers_to_own_names(model, k);
    lemma_catalog_entry_resolves(provider, i, model.name@);
    lemma_catalog_entry_resolves(provider, i, model.aliases@[k]@);
}

/// With no name given, the catalog of either provider resolves to its first
/// entry.
pub proof fn lemma_catalog_default(provider: Provider)
    ensures
        provider.entries().len() > 0,
        resolved_model(provider.entries(), None) == Ok::<Model, ConfigError>(
            provider.entries()[0],
        ),
{
}

} // verus!

