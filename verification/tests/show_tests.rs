use ollama::show::{lookup_entry, texts_of, JsonScalar, ModelShow, ShowError, ShowValue};

fn text(s: &str) -> JsonScalar {
    JsonScalar::Text(s.to_string())
}

fn field(k: &str, v: ShowValue) -> (String, ShowValue) {
    (k.to_string(), v)
}

fn llama_info() -> ShowValue {
    ShowValue::Object(vec![
        ("general.architecture".to_string(), text("llama")),
        ("llama.context_length".to_string(), JsonScalar::Unsigned(131072)),
        ("llama.embedding_length".to_string(), JsonScalar::Unsigned(4096)),
    ])
}

#[test]
fn reads_capabilities_and_model_info() {
    let fields = vec![
        field("license", ShowValue::Scalar(text("MIT"))),
        field("capabilities", ShowValue::Array(vec![text("completion"), text("tools")])),
        field("model_info", llama_info()),
    ];
    let show = ModelShow::from_fields(&fields).unwrap();
    assert_eq!(show.capabilities, vec!["completion".to_string(), "tools".to_string()]);
    assert_eq!(show.architecture, Some("llama".to_string()));
    assert_eq!(show.context_length, Some(131072));
    assert!(show.supports_tools());
    assert!(!show.supports_vision());
    assert!(!show.supports_thinking());
}

#[test]
fn empty_reply_gives_empty_description() {
    let show = ModelShow::from_fields(&vec![]).unwrap();
    assert!(show.capabilities.is_empty());
    assert_eq!(show.architecture, None);
    assert_eq!(show.context_length, None);
}

#[test]
fn capabilities_must_be_strings() {
    let fields = vec![field("capabilities", ShowValue::Array(vec![text("tools"), JsonScalar::Unsigned(1)]))];
    assert_eq!(ModelShow::from_fields(&fields).unwrap_err(), ShowError::InvalidCapabilities);
    let fields = vec![field("capabilities", ShowValue::Scalar(JsonScalar::Other))];
    assert_eq!(ModelShow::from_fields(&fields).unwrap_err(), ShowError::InvalidCapabilities);
    let fields = vec![
        field("capabilities", ShowValue::Object(vec![])),
        field("capabilities", ShowValue::Array(vec![])),
    ];
    assert_eq!(ModelShow::from_fields(&fields).unwrap_err(), ShowError::InvalidCapabilities);
}

#[test]
fn last_capabilities_win() {
    let fields = vec![
        field("capabilities", ShowValue::Array(vec![text("vision")])),
        field("capabilities", ShowValue::Array(vec![text("thinking")])),
    ];
    let show = ModelShow::from_fields(&fields).unwrap();
    assert!(show.supports_thinking());
    assert!(!show.supports_vision());
}

#[test]
fn model_info_that_is_not_an_object_is_skipped() {
    let fields = vec![
        field("model_info", llama_info()),
        field("model_info", ShowValue::Scalar(JsonScalar::Other)),
        field("model_info", ShowValue::Array(vec![])),
    ];
    let show = ModelShow::from_fields(&fields).unwrap();
    assert_eq!(show.architecture, Some("llama".to_string()));
    assert_eq!(show.context_length, Some(131072));
}

#[test]
fn missing_architecture_keeps_earlier_context_length() {
    let fields = vec![
        field("model_info", llama_info()),
        field("model_info", ShowValue::Object(vec![("x".to_string(), text("y"))])),
    ];
    let show = ModelShow::from_fields(&fields).unwrap();
    assert_eq!(show.architecture, None);
    assert_eq!(show.context_length, Some(131072));
}

#[test]
fn context_length_read_under_the_architecture() {
    let info = ShowValue::Object(vec![
        ("general.architecture".to_string(), text("qwen2")),
        ("llama.context_length".to_string(), JsonScalar::Unsigned(10)),
        ("qwen2.context_length".to_string(), JsonScalar::Unsigned(32768)),
    ]);
    let show = ModelShow::from_fields(&vec![field("model_info", info)]).unwrap();
    assert_eq!(show.architecture, Some("qwen2".to_string()));
    assert_eq!(show.context_length, Some(32768));
}

#[test]
fn non_numeric_context_length_is_none() {
    let info = ShowValue::Object(vec![
        ("general.architecture".to_string(), text("gemma")),
        ("gemma.context_length".to_string(), text("8192")),
    ]);
    let show = ModelShow::from_fields(&vec![field("model_info", llama_info()), field("model_info", info)]).unwrap();
    assert_eq!(show.architecture, Some("gemma".to_string()));
    assert_eq!(show.context_length, None);
}

#[test]
fn architecture_must_be_a_string() {
    let info = ShowValue::Object(vec![
        ("general.architecture".to_string(), JsonScalar::Unsigned(3)),
        ("3.context_length".to_string(), JsonScalar::Unsigned(5)),
    ]);
    let show = ModelShow::from_fields(&vec![field("model_info", info)]).unwrap();
    assert_eq!(show.architecture, None);
    assert_eq!(show.context_length, None);
}

#[test]
fn other_keys_are_ignored() {
    let fields = vec![
        field("Capabilities", ShowValue::Scalar(JsonScalar::Other)),
        field("template", ShowValue::Scalar(text("{{ .Prompt }}"))),
        field("capabilities", ShowValue::Array(vec![text("vision")])),
    ];
    let show = ModelShow::from_fields(&fields).unwrap();
    assert!(show.supports_vision());
}

#[test]
fn lookup_takes_the_last_match() {
    let entries = vec![
        ("k".to_string(), JsonScalar::Unsigned(1)),
        ("k".to_string(), JsonScalar::Unsigned(2)),
        ("j".to_string(), JsonScalar::Unsigned(3)),
    ];
    assert_eq!(lookup_entry(&entries, "k"), Some(&JsonScalar::Unsigned(2)));
    assert_eq!(lookup_entry(&entries, "z"), None);
}

#[test]
fn texts_of_cases() {
    assert_eq!(texts_of(&vec![text("a"), text("b")]), Some(vec!["a".to_string(), "b".to_string()]));
    assert_eq!(texts_of(&vec![text("a"), JsonScalar::Other]), None);
    assert_eq!(texts_of(&vec![]), Some(vec![]));
}
