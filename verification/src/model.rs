//! Models offered by an Ollama server and the server's listings of them.

use vstd::prelude::*;

use crate::settings::KeepAlive;
use crate::show::opt_string_view;
use crate::text::{lemma_strip_appended_suffix, lemma_strip_suffix_restores, spec_strip_suffix, strip_suffix};

verus! {

/// Where a local Ollama server listens by default.
pub const OLLAMA_API_URL: &'static str = "http://localhost:11434";

/// The context size assumed for a model whose size is not known.
pub const DEFAULT_MAX_TOKENS: u64 = 4096;

/// A model as offered to the user.
#[derive(Clone, Debug, PartialEq)]
pub struct Model {
    pub name: String,
    pub display_name: Option<String>,
    pub max_tokens: u64,
    pub keep_alive: Option<KeepAlive>,
    pub supports_tools: Option<bool>,
    pub supports_vision: Option<bool>,
    pub supports_thinking: Option<bool>,
}

/// The context size assumed for the model named `name`.
pub fn get_max_tokens(name: &str) -> (r: u64)
    ensures
        r == DEFAULT_MAX_TOKENS,
{
    DEFAULT_MAX_TOKENS
}

/// The name shown for a model when none is given: its name without a trailing
/// `:latest` tag, and no name at all when it has no such tag.
pub open spec fn implied_display_name(name: Seq<char>) -> Option<Seq<char>> {
    spec_strip_suffix(name, ":latest"@)
}

/// A name tagged `:latest` is shown without the tag.
pub proof fn lemma_latest_tag_hidden(base: Seq<char>)
    ensures
        implied_display_name(base + ":latest"@) == Some(base),
{
    lemma_strip_appended_suffix(base, ":latest"@);
}

/// A display name is implied only for a name tagged `:latest`, and it is that
/// name with the tag taken off.
pub proof fn lemma_implied_name_is_untagged(name: Seq<char>)
    requires
        implied_display_name(name) is Some,
    ensures
        implied_display_name(name)->0 + ":latest"@ == name,
{
    lemma_strip_suffix_restores(name, ":latest"@);
}

impl Model {
    /// Describes a model. Without a display name, a name tagged `:latest` is shown
    /// without the tag; without a token limit, the default is assumed; the model
    /// is kept loaded indefinitely.
    pub fn new(
        name: &str,
        display_name: Option<&str>,
        max_tokens: Option<u64>,
        supports_tools: Option<bool>,
        supports_vision: Option<bool>,
        supports_thinking: Option<bool>,
    ) -> (r: Self)
        ensures
            r.name@ == name@,
            opt_string_view(r.display_name) == match display_name {
                Some(d) => Some(d@),
                None => implied_display_name(name@),
            },
            r.max_tokens == match max_tokens {
                Some(n) => n,
                None => DEFAULT_MAX_TOKENS,
            },
            r.keep_alive == Some(KeepAlive::spec_indefinite()),
            r.supports_tools == supports_tools,
            r.supports_vision == supports_vision,
            r.supports_thinking == supports_thinking,
    {
        let display_name = match display_name {
            Some(d) => Some(d.to_owned()),
            None => match strip_suffix(name, ":latest") {
                Some(p) => Some(p.to_owned()),
                None => None,
            },
        };
        let max_tokens = match max_tokens {
            Some(n) => n,
            None => get_max_tokens(name),
        };
        Model {
            name: name.to_owned(),
            display_name,
            max_tokens,
            keep_alive: Some(KeepAlive::indefinite()),
            supports_tools,
            supports_vision,
            supports_thinking,
        }
    }

    /// The name by which the server knows the model.
    pub fn id(&self) -> (r: &str)
        ensures
            r@ == self.name@,
    {
        self.name.as_str()
    }

    /// The name shown for the model: its display name, or else its name.
    pub fn display_name(&self) -> (r: &str)
        ensures
            r@ == match self.display_name {
                Some(d) => d@,
                None => self.name@,
            },
    {
        match &self.display_name {
            Some(d) => d.as_str(),
            None => self.name.as_str(),
        }
    }

    /// The largest number of tokens the model takes.
    pub fn max_token_count(&self) -> (r: u64)
        ensures
            r == self.max_tokens,
    {
        self.max_tokens
    }
}

impl Default for Model {
    fn default() -> (r: Self)
        ensures
            r.name@ == Seq::<char>::empty(),
            r.display_name is None,
            r.max_tokens == 0,
            r.keep_alive is None,
            r.supports_tools is None,
            r.supports_vision is None,
            r.supports_thinking is None,
    {
        Model {
            name: String::new(),
            display_name: None,
            max_tokens: 0,
            keep_alive: None,
            supports_tools: None,
            supports_vision: None,
            supports_thinking: None,
        }
    }
}

/// The server's listing of the models it has.
pub struct LocalModelsResponse {
    pub models: Vec<LocalModelListing>,
}

/// One model in the server's listing.
pub struct LocalModelListing {
    pub name: String,
    pub modified_at: String,
    pub size: u64,
    pub digest: String,
    pub details: ModelDetails,
}

/// A model as the server stores it.
pub struct LocalModel {
    pub modelfile: String,
    pub parameters: String,
    pub template: String,
    pub details: ModelDetails,
}

/// The format and size of a model.
pub struct ModelDetails {
    pub format: String,
    pub family: String,
    pub families: Option<Vec<String>>,
    pub parameter_size: String,
    pub quantization_level: String,
}

} // verus!
