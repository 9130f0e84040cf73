//! Settings for language model providers.

use vstd::prelude::*;

use crate::text::str_equals;

verus! {

/// How long the server keeps a model loaded after a request.
#[derive(Clone, Debug, PartialEq, Eq)]
pub enum KeepAlive {
    /// Keep model alive for N seconds
    Seconds(isize),
    /// Keep model alive for a fixed duration. Accepts durations like "5m", "10m", "1h", "1d", etc.
    Duration(String),
}

impl KeepAlive {
    /// The setting that keeps a model loaded until another one replaces it.
    pub open spec fn spec_indefinite() -> KeepAlive {
        KeepAlive::Seconds(-1isize)
    }

    /// Keep model alive until a new model is loaded or until Ollama shuts down
    pub fn indefinite() -> (r: Self)
        ensures
            r == Self::spec_indefinite(),
    {
        KeepAlive::Seconds(-1)
    }
}

impl Default for KeepAlive {
    fn default() -> (r: Self)
        ensures
            r == KeepAlive::spec_indefinite(),
    {
        Self::indefinite()
    }
}

/// How much reasoning a model is asked for.
#[derive(Clone, Debug, PartialEq, Eq, Structural)]
pub enum OpenAiReasoningEffort {
    Minimal,
    Low,
    Medium,
    High,
    XHigh,
}

/// The error for a name that names no reasoning effort.
#[derive(Clone, Debug, PartialEq, Eq, Structural)]
pub struct ReasoningEffortParseError;

impl OpenAiReasoningEffort {
    /// The effort that the lower-case name `s` stands for.
    pub open spec fn spec_parse(s: Seq<char>) -> Option<OpenAiReasoningEffort> {
        if s == "minimal"@ {
            Some(OpenAiReasoningEffort::Minimal)
        } else if s == "low"@ {
            Some(OpenAiReasoningEffort::Low)
        } else if s == "medium"@ {
            Some(OpenAiReasoningEffort::Medium)
        } else if s == "high"@ {
            Some(OpenAiReasoningEffort::High)
        } else if s == "xhigh"@ {
            Some(OpenAiReasoningEffort::XHigh)
        } else {
            None
        }
    }

    /// Reads an effort from its lower-case name; names are matched exactly.
    pub fn parse(s: &str) -> (r: Option<Self>)
        ensures
            r == Self::spec_parse(s@),
    {
        if str_equals(s, "minimal") {
            Some(OpenAiReasoningEffort::Minimal)
        } else if str_equals(s, "low") {
            Some(OpenAiReasoningEffort::Low)
        } else if str_equals(s, "medium") {
            Some(OpenAiReasoningEffort::Medium)
        } else if str_equals(s, "high") {
            Some(OpenAiReasoningEffort::High)
        } else if str_equals(s, "xhigh") {
            Some(OpenAiReasoningEffort::XHigh)
        } else {
            None
        }
    }
}

impl core::str::FromStr for OpenAiReasoningEffort {
    type Err = ReasoningEffortParseError;

    fn from_str(s: &str) -> (r: Result<Self, Self::Err>)
        ensures
            r == match Self::spec_parse(s@) {
                Some(e) => Ok::<OpenAiReasoningEffort, ReasoningEffortParseError>(e),
                None => Err::<OpenAiReasoningEffort, ReasoningEffortParseError>(ReasoningEffortParseError),
            },
    {
        match OpenAiReasoningEffort::parse(s) {
            Some(e) => Ok(e),
            None => Err(ReasoningEffortParseError),
        }
    }
}

/// Routing preferences for the OpenRouter provider.
#[derive(Clone, Debug, PartialEq)]
pub struct OpenRouterProvider {
    pub order: Option<Vec<String>>,
    pub allow_fallbacks: bool,
    pub require_parameters: bool,
    pub data_collection: DataCollection,
    pub only: Option<Vec<String>>,
    pub ignore: Option<Vec<String>>,
    pub quantizations: Option<Vec<String>>,
    pub sort: Option<String>,
}

impl OpenRouterProvider {
    /// Builds the preferences from the settings that were given, filling in each
    /// one that was left out: fallbacks are allowed, parameters are not required,
    /// and data collection is allowed.
    pub fn with_defaults(
        order: Option<Vec<String>>,
        allow_fallbacks: Option<bool>,
        require_parameters: Option<bool>,
        data_collection: Option<DataCollection>,
        only: Option<Vec<String>>,
        ignore: Option<Vec<String>>,
        quantizations: Option<Vec<String>>,
        sort: Option<String>,
    ) -> (r: Self)
        ensures
            r.order == order,
            r.allow_fallbacks == match allow_fallbacks {
                Some(b) => b,
                None => true,
            },
            r.require_parameters == match require_parameters {
                Some(b) => b,
                None => false,
            },
            r.data_collection == match data_collection {
                Some(d) => d,
                None => DataCollection::Allow,
            },
            r.only == only,
            r.ignore == ignore,
            r.quantizations == quantizations,
            r.sort == sort,
    {
        let allow_fallbacks = match allow_fallbacks {
            Some(b) => b,
            None => default_true(),
        };
        let require_parameters = match require_parameters {
            Some(b) => b,
            None => false,
        };
        let data_collection = match data_collection {
            Some(d) => d,
            None => DataCollection::default(),
        };
        OpenRouterProvider {
            order,
            allow_fallbacks,
            require_parameters,
            data_collection,
            only,
            ignore,
            quantizations,
            sort,
        }
    }
}

/// Whether providers may keep the data they are sent.
#[derive(Clone, Copy, Debug, PartialEq, Eq, Structural)]
pub enum DataCollection {
    Allow,
    Disallow,
}

impl Default for DataCollection {
    fn default() -> (r: Self)
        ensures
            r == DataCollection::Allow,
    {
        DataCollection::Allow
    }
}

/// The value that a boolean setting takes when it is left out and defaults to on.
pub fn default_true() -> (r: bool)
    ensures
        r,
{
    true
}

/// Whether a model answers directly or reasons first.
#[derive(Copy, Clone, Debug, PartialEq, Eq, Structural)]
pub enum ModelMode {
    Default,
    Thinking {
        /// The maximum number of tokens to use for reasoning. Must be lower than the model's `max_output_tokens`.
        budget_tokens: Option<u32>,
    },
}

impl Default for ModelMode {
    fn default() -> (r: Self)
        ensures
            r == ModelMode::Default,
    {
        ModelMode::Default
    }
}

/// The outcome of reading a settings file.
#[derive(Debug, Clone, PartialEq, Eq)]
pub enum ParseStatus {
    /// Settings were parsed successfully
    Success,
    /// Settings failed to parse
    Failed { error: String },
}

} // verus!
