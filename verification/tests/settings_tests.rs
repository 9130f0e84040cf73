use std::str::FromStr;

use ollama::settings::{
    default_true, DataCollection, KeepAlive, ModelMode, OpenAiReasoningEffort, OpenRouterProvider,
    ParseStatus, ReasoningEffortParseError,
};

#[test]
fn keep_alive_indefinite_is_minus_one_second() {
    assert_eq!(KeepAlive::indefinite(), KeepAlive::Seconds(-1));
}

#[test]
fn keep_alive_default_is_indefinite() {
    assert_eq!(KeepAlive::default(), KeepAlive::indefinite());
    assert_ne!(KeepAlive::default(), KeepAlive::Duration("5m".to_string()));
}

#[test]
fn data_collection_default_allows() {
    assert_eq!(DataCollection::default(), DataCollection::Allow);
}

#[test]
fn model_mode_default_is_default() {
    assert_eq!(ModelMode::default(), ModelMode::Default);
    assert_ne!(ModelMode::default(), ModelMode::Thinking { budget_tokens: None });
}

#[test]
fn default_true_is_true() {
    assert!(default_true());
}

#[test]
fn reasoning_effort_reads_lowercase_names() {
    assert_eq!(OpenAiReasoningEffort::parse("minimal"), Some(OpenAiReasoningEffort::Minimal));
    assert_eq!(OpenAiReasoningEffort::parse("low"), Some(OpenAiReasoningEffort::Low));
    assert_eq!(OpenAiReasoningEffort::parse("medium"), Some(OpenAiReasoningEffort::Medium));
    assert_eq!(OpenAiReasoningEffort::parse("high"), Some(OpenAiReasoningEffort::High));
    assert_eq!(OpenAiReasoningEffort::parse("xhigh"), Some(OpenAiReasoningEffort::XHigh));
}

#[test]
fn reasoning_effort_rejects_other_names() {
    assert_eq!(OpenAiReasoningEffort::parse("High"), None);
    assert_eq!(OpenAiReasoningEffort::parse("x_high"), None);
    assert_eq!(OpenAiReasoningEffort::parse(""), None);
    assert_eq!(OpenAiReasoningEffort::parse("low "), None);
}

#[test]
fn reasoning_effort_from_str() {
    assert_eq!(OpenAiReasoningEffort::from_str("medium"), Ok(OpenAiReasoningEffort::Medium));
    assert_eq!(OpenAiReasoningEffort::from_str("Medium"), Err(ReasoningEffortParseError));
}

#[test]
fn open_router_fills_left_out_settings() {
    let p = OpenRouterProvider::with_defaults(None, None, None, None, None, None, None, None);
    assert!(p.allow_fallbacks);
    assert!(!p.require_parameters);
    assert_eq!(p.data_collection, DataCollection::Allow);
    assert_eq!(p.order, None);
    assert_eq!(p.sort, None);
}

#[test]
fn open_router_keeps_given_settings() {
    let p = OpenRouterProvider::with_defaults(
        Some(vec!["a".to_string(), "b".to_string()]),
        Some(false),
        Some(true),
        Some(DataCollection::Disallow),
        Some(vec!["c".to_string()]),
        Some(vec![]),
        Some(vec!["fp8".to_string()]),
        Some("price".to_string()),
    );
    assert!(!p.allow_fallbacks);
    assert!(p.require_parameters);
    assert_eq!(p.data_collection, DataCollection::Disallow);
    assert_eq!(p.order, Some(vec!["a".to_string(), "b".to_string()]));
    assert_eq!(p.only, Some(vec!["c".to_string()]));
    assert_eq!(p.ignore, Some(vec![]));
    assert_eq!(p.quantizations, Some(vec!["fp8".to_string()]));
    assert_eq!(p.sort, Some("price".to_string()));
}

#[test]
fn parse_status_compares_by_error() {
    let a = ParseStatus::Failed { error: "bad".to_string() };
    assert_eq!(a.clone(), a);
    assert_ne!(a, ParseStatus::Success);
}
