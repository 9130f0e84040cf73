//! What the server tells about one model: its capabilities, architecture and
//! context length, read from the fields of the server's reply.

use vstd::prelude::*;

use crate::text::{concat_str, str_equals};

verus! {

/// A JSON value in the reply, kept only as far as the reply is read: a string,
/// a number that fits in a `u64`, or anything else.
#[derive(Clone, Debug, PartialEq)]
pub enum JsonScalar {
    Text(String),
    Unsigned(u64),
    Other,
}

/// The value of one top-level field of the reply: an array, an object (its
/// entries in order, nested values kept as scalars), or any other value.
#[derive(Clone, Debug, PartialEq)]
pub enum ShowValue {
    Array(Vec<JsonScalar>),
    Object(Vec<(String, JsonScalar)>),
    Scalar(JsonScalar),
}

/// The reply could not be read as a model description.
#[derive(Clone, Debug, PartialEq, Eq, Structural)]
pub enum ShowError {
    /// The `capabilities` field is not an array of strings.
    InvalidCapabilities,
}

/// Details of a model as reported by the server.
#[derive(Debug, Clone)]
pub struct ModelShow {
    pub capabilities: Vec<String>,
    pub context_length: Option<u64>,
    pub architecture: Option<String>,
}

/// The mathematical content of a [`ModelShow`].
pub struct ShowSummary {
    pub capabilities: Seq<Seq<char>>,
    pub context_length: Option<u64>,
    pub architecture: Option<Seq<char>>,
}

pub open spec fn opt_string_view(s: Option<String>) -> Option<Seq<char>> {
    match s {
        Some(t) => Some(t@),
        None => None,
    }
}

impl View for ModelShow {
    type V = ShowSummary;

    open spec fn view(&self) -> ShowSummary {
        ShowSummary {
            capabilities: self.capabilities@.map_values(|c: String| c@),
            context_length: self.context_length,
            architecture: opt_string_view(self.architecture),
        }
    }
}

/// The description before any field has been read.
pub open spec fn empty_summary() -> ShowSummary {
    ShowSummary { capabilities: Seq::empty(), context_length: None, architecture: None }
}

/// The value of the last entry of `entries` whose key is `key`.
pub open spec fn lookup(entries: Seq<(String, JsonScalar)>, key: Seq<char>) -> Option<JsonScalar>
    decreases entries.len(),
{
    if entries.len() == 0 {
        None
    } else if entries.last().0@ == key {
        Some(entries.last().1)
    } else {
        lookup(entries.drop_last(), key)
    }
}

pub open spec fn text_of(v: Option<JsonScalar>) -> Option<Seq<char>> {
    match v {
        Some(JsonScalar::Text(t)) => Some(t@),
        _ => None,
    }
}

pub open spec fn unsigned_of(v: Option<JsonScalar>) -> Option<u64> {
    match v {
        Some(JsonScalar::Unsigned(n)) => Some(n),
        _ => None,
    }
}

/// Every item is a string.
pub open spec fn all_text(items: Seq<JsonScalar>) -> bool {
    forall|i: int| 0 <= i < items.len() ==> (#[trigger] items[i]) is Text
}

pub open spec fn text_view(v: JsonScalar) -> Seq<char> {
    match v {
        JsonScalar::Text(t) => t@,
        _ => Seq::empty(),
    }
}

/// The strings of an array of strings.
pub open spec fn texts(items: Seq<JsonScalar>) -> Seq<Seq<char>> {
    items.map_values(|v: JsonScalar| text_view(v))
}

/// The key under which the context length of architecture `arch` is reported.
pub open spec fn context_length_key(arch: Seq<char>) -> Seq<char> {
    arch + ".context_length"@
}

/// What reading one more field does to the description read so far; `None`
/// when the field makes the reply unreadable.
pub open spec fn apply_field(s: ShowSummary, key: Seq<char>, value: ShowValue) -> Option<ShowSummary> {
    if key == "capabilities"@ {
        match value {
            ShowValue::Array(items) => if all_text(items@) {
                Some(ShowSummary { capabilities: texts(items@), ..s })
            } else {
                None
            },
            _ => None,
        }
    } else if key == "model_info"@ {
        match value {
            ShowValue::Object(entries) => {
                let arch = text_of(lookup(entries@, "general.architecture"@));
                Some(
                    ShowSummary {
                        capabilities: s.capabilities,
                        architecture: arch,
                        context_length: match arch {
                            Some(a) => unsigned_of(lookup(entries@, context_length_key(a))),
                            None => s.context_length,
                        },
                    },
                )
            },
            _ => Some(s),
        }
    } else {
        Some(s)
    }
}

/// The description read from the fields of a reply, in their order.
pub open spec fn show_fields(fields: Seq<(String, ShowValue)>) -> Option<ShowSummary>
    decreases fields.len(),
{
    if fields.len() == 0 {
        Some(empty_summary())
    } else {
        match show_fields(fields.drop_last()) {
            Some(s) => apply_field(s, fields.last().0@, fields.last().1),
            None => None,
        }
    }
}

/// Once a field makes the reply unreadable, no later field mends it.
pub proof fn lemma_unreadable_prefix(fields: Seq<(String, ShowValue)>, i: int)
    requires
        0 <= i <= fields.len(),
        show_fields(fields.take(i)) is None,
    ensures
        show_fields(fields) is None,
    decreases fields.len() - i,
{
    if i < fields.len() {
        assert(fields.take(i + 1).drop_last() =~= fields.take(i));
        lemma_unreadable_prefix(fields, i + 1);
    } else {
        assert(fields.take(i) =~= fields);
    }
}

/// A field whose key is neither `capabilities` nor `model_info` changes nothing.
pub proof fn lemma_other_fields_ignored(fields: Seq<(String, ShowValue)>, field: (String, ShowValue))
    requires
        field.0@ != "capabilities"@,
        field.0@ != "model_info"@,
    ensures
        show_fields(fields.push(field)) == show_fields(fields),
{
    assert(fields.push(field).drop_last() =~= fields);
}

/// The capabilities are those of the last `capabilities` field, whatever came before.
pub proof fn lemma_last_capabilities_win(fields: Seq<(String, ShowValue)>, field: (String, ShowValue))
    requires
        show_fields(fields) is Some,
        field.0@ == "capabilities"@,
        field.1 matches ShowValue::Array(items) && all_text(items@),
    ensures
        show_fields(fields.push(field)) is Some,
        show_fields(fields.push(field))->0.capabilities == texts(field.1->Array_0@),
        show_fields(fields.push(field))->0.architecture == show_fields(fields)->0.architecture,
        show_fields(fields.push(field))->0.context_length == show_fields(fields)->0.context_length,
{
    assert(fields.push(field).drop_last() =~= fields);
}

/// A model has a capability exactly when that name stands at some position of
/// its capability list, wherever it stands.
pub proof fn law_capability_at_any_position(m: ModelShow, c: Seq<char>)
    ensures
        m.has_capability(c) <==> exists|i: int| 0 <= i < m.capabilities@.len() && (#[trigger] m.capabilities@[i])@ == c,
        forall|i: int| 0 <= i < m.capabilities@.len() && (#[trigger] m.capabilities@[i])@ == c ==> m.has_capability(c),
{
}

/// No two entries of an object share a key, as in an object that `serde_json` has read.
pub open spec fn distinct_keys(entries: Seq<(String, JsonScalar)>) -> bool {
    forall|i: int, j: int|
        0 <= i < entries.len() && 0 <= j < entries.len() && i != j ==> (#[trigger] entries[i]).0@ != (#[trigger] entries[j]).0@
}

/// A key that no entry has is not found.
pub proof fn law_lookup_absent(entries: Seq<(String, JsonScalar)>, key: Seq<char>)
    requires
        forall|i: int| 0 <= i < entries.len() ==> (#[trigger] entries[i]).0@ != key,
    ensures
        lookup(entries, key) is None,
    decreases entries.len(),
{
    if entries.len() > 0 {
        let p = entries.drop_last();
        assert forall|i: int| 0 <= i < p.len() implies (#[trigger] p[i]).0@ != key by {
            assert(p[i] == entries[i]);
        }
        assert(entries[entries.len() - 1].0@ != key);
        law_lookup_absent(p, key);
    }
}

/// In an object without repeated keys, the value of an entry is found by its
/// key wherever the entry stands.
pub proof fn law_lookup_at_any_position(entries: Seq<(String, JsonScalar)>, key: Seq<char>, i: int)
    requires
        distinct_keys(entries),
        0 <= i < entries.len(),
        entries[i].0@ == key,
    ensures
        lookup(entries, key) == Some(entries[i].1),
    decreases entries.len(),
{
    if i < entries.len() - 1 {
        let p = entries.drop_last();
        assert(entries[entries.len() - 1].0@ != entries[i].0@);
        assert forall|a: int, b: int|
            0 <= a < p.len() && 0 <= b < p.len() && a != b implies (#[trigger] p[a]).0@ != (#[trigger] p[b]).0@ by {
            assert(p[a] == entries[a]);
            assert(p[b] == entries[b]);
        }
        assert(p[i] == entries[i]);
        law_lookup_at_any_position(p, key, i);
    }
}

/// In objects without repeated keys, what is found does not depend on the
/// order of the entries: two objects made of the same entries give the same
/// value for every key.
pub proof fn law_lookup_order_free(e1: Seq<(String, JsonScalar)>, e2: Seq<(String, JsonScalar)>, key: Seq<char>)
    requires
        distinct_keys(e1),
        distinct_keys(e2),
        forall|i: int| 0 <= i < e1.len() ==> e2.contains(#[trigger] e1[i]),
        forall|j: int| 0 <= j < e2.len() ==> e1.contains(#[trigger] e2[j]),
    ensures
        lookup(e1, key) == lookup(e2, key),
{
    if exists|i: int| 0 <= i < e1.len() && (#[trigger] e1[i]).0@ == key {
        let i = choose|i: int| 0 <= i < e1.len() && (#[trigger] e1[i]).0@ == key;
        assert(e2.contains(e1[i]));
        let j = choose|j: int| 0 <= j < e2.len() && e2[j] == e1[i];
        law_lookup_at_any_position(e1, key, i);
        law_lookup_at_any_position(e2, key, j);
    } else {
        assert forall|j: int| 0 <= j < e2.len() implies (#[trigger] e2[j]).0@ != key by {
            assert(e1.contains(e2[j]));
            let i = choose|i: int| 0 <= i < e1.len() && e1[i] == e2[j];
            assert(e1[i].0@ != key);
        }
        law_lookup_absent(e1, key);
        law_lookup_absent(e2, key);
    }
}

/// From a `model_info` object without repeated keys, the architecture is the
/// string under `general.architecture` and the context length the number under
/// `<architecture>.context_length`, wherever these entries stand in the object;
/// the capabilities read so far stay.
pub proof fn law_model_info_read_anywhere(
    fields: Seq<(String, ShowValue)>,
    field: (String, ShowValue),
    entries: Vec<(String, JsonScalar)>,
    i: int,
    a: String,
    j: int,
    n: u64,
)
    requires
        show_fields(fields) is Some,
        field.0@ == "model_info"@,
        field.1 == ShowValue::Object(entries),
        distinct_keys(entries@),
        0 <= i < entries@.len(),
        entries@[i].0@ == "general.architecture"@,
        entries@[i].1 == JsonScalar::Text(a),
        0 <= j < entries@.len(),
        entries@[j].0@ == a@ + ".context_length"@,
        entries@[j].1 == JsonScalar::Unsigned(n),
    ensures
        show_fields(fields.push(field)) is Some,
        show_fields(fields.push(field))->0.architecture == Some(a@),
        show_fields(fields.push(field))->0.context_length == Some(n),
        show_fields(fields.push(field))->0.capabilities == show_fields(fields)->0.capabilities,
{
    reveal_strlit("model_info");
    reveal_strlit("capabilities");
    assert("model_info"@.len() != "capabilities"@.len());
    assert(fields.push(field).drop_last() =~= fields);
    law_lookup_at_any_position(entries@, "general.architecture"@, i);
    law_lookup_at_any_position(entries@, a@ + ".context_length"@, j);
}

/// Reading a `model_info` object does not depend on the order of its entries.
pub proof fn law_model_info_order_free(
    s: ShowSummary,
    e1: Vec<(String, JsonScalar)>,
    e2: Vec<(String, JsonScalar)>,
)
    requires
        distinct_keys(e1@),
        distinct_keys(e2@),
        forall|i: int| 0 <= i < e1@.len() ==> e2@.contains(#[trigger] e1@[i]),
        forall|j: int| 0 <= j < e2@.len() ==> e1@.contains(#[trigger] e2@[j]),
    ensures
        apply_field(s, "model_info"@, ShowValue::Object(e1)) == apply_field(s, "model_info"@, ShowValue::Object(e2)),
{
    reveal_strlit("model_info");
    reveal_strlit("capabilities");
    assert("model_info"@.len() != "capabilities"@.len());
    law_lookup_order_free(e1@, e2@, "general.architecture"@);
    let arch = text_of(lookup(e1@, "general.architecture"@));
    if arch is Some {
        law_lookup_order_free(e1@, e2@, context_length_key(arch->0));
    }
}

/// Finds the value of the last entry with key `key`.
pub fn lookup_entry<'a>(entries: &'a Vec<(String, JsonScalar)>, key: &str) -> (r: Option<&'a JsonScalar>)
    ensures
        match r {
            Some(v) => lookup(entries@, key@) == Some(*v),
            None => lookup(entries@, key@) is None,
        },
{
    let mut i: usize = entries.len();
    assert(entries@.take(i as int) =~= entries@);
    while i > 0
        invariant
            i <= entries@.len(),
            lookup(entries@.take(i as int), key@) == lookup(entries@, key@),
        decreases i,
    {
        let ghost prefix = entries@.take(i as int);
        assert(prefix.drop_last() =~= entries@.take(i - 1));
        if str_equals(entries[i - 1].0.as_str(), key) {
            return Some(&entries[i - 1].1);
        }
        i = i - 1;
    }
    assert(entries@.take(0).len() == 0);
    None
}

/// The strings of an array, or `None` when one of its items is not a string.
pub fn texts_of(items: &Vec<JsonScalar>) -> (r: Option<Vec<String>>)
    ensures
        match r {
            Some(v) => all_text(items@) && v@.map_values(|s: String| s@) == texts(items@),
            None => !all_text(items@),
        },
{
    let mut out: Vec<String> = Vec::new();
    let mut i: usize = 0;
    while i < items.len()
        invariant
            i <= items@.len(),
            out@.len() == i,
            forall|j: int| 0 <= j < i ==> (#[trigger] items@[j]) is Text,
            forall|j: int| 0 <= j < i ==> (#[trigger] out@[j])@ == text_view(items@[j]),
        decreases items@.len() - i,
    {
        match &items[i] {
            JsonScalar::Text(t) => {
                out.push(t.clone());
            },
            _ => {
                return None;
            },
        }
        i = i + 1;
    }
    assert(out@.map_values(|s: String| s@) =~= texts(items@));
    Some(out)
}

impl ModelShow {
    /// Reads a model description from the top-level fields of the server's reply,
    /// in the order in which they came. `capabilities` must be an array of
    /// strings; from an object under `model_info` the architecture is read at
    /// `general.architecture` and, when there is one, the context length at
    /// `<architecture>.context_length`; every other field is skipped. A field
    /// that comes again overrides what came before.
    pub fn from_fields(fields: &Vec<(String, ShowValue)>) -> (r: Result<ModelShow, ShowError>)
        ensures
            match r {
                Ok(m) => show_fields(fields@) == Some(m@),
                Err(_) => show_fields(fields@) is None,
            },
    {
        let mut capabilities: Vec<String> = Vec::new();
        let mut architecture: Option<String> = None;
        let mut context_length: Option<u64> = None;
        let mut i: usize = 0;
        assert(capabilities@.map_values(|c: String| c@) =~= Seq::<Seq<char>>::empty());
        assert(fields@.take(0) =~= Seq::<(String, ShowValue)>::empty());
        while i < fields.len()
            invariant
                i <= fields@.len(),
                show_fields(fields@.take(i as int)) == Some(
                    ShowSummary {
                        capabilities: capabilities@.map_values(|c: String| c@),
                        context_length: context_length,
                        architecture: opt_string_view(architecture),
                    },
                ),
            decreases fields@.len() - i,
        {
            assert(fields@.take(i + 1).drop_last() =~= fields@.take(i as int));
            let key = fields[i].0.as_str();
            let value = &fields[i].1;
            if str_equals(key, "capabilities") {
                match value {
                    ShowValue::Array(items) => match texts_of(items) {
                        Some(v) => {
                            capabilities = v;
                        },
                        None => {
                            proof {
                                lemma_unreadable_prefix(fields@, i + 1);
                            }
                            return Err(ShowError::InvalidCapabilities);
                        },
                    },
                    _ => {
                        proof {
                            lemma_unreadable_prefix(fields@, i + 1);
                        }
                        return Err(ShowError::InvalidCapabilities);
                    },
                }
            } else if str_equals(key, "model_info") {
                match value {
                    ShowValue::Object(entries) => {
                        architecture = match lookup_entry(entries, "general.architecture") {
                            Some(JsonScalar::Text(t)) => Some(t.clone()),
                            _ => None,
                        };
                        match &architecture {
                            Some(a) => {
                                let k = concat_str(a.as_str(), ".context_length");
                                context_length = match lookup_entry(entries, k.as_str()) {
                                    Some(JsonScalar::Unsigned(n)) => Some(*n),
                                    _ => None,
                                };
                            },
                            None => {},
                        }
                    },
                    _ => {},
                }
            }
            i = i + 1;
        }
        assert(fields@.take(i as int) =~= fields@);
        Ok(ModelShow { capabilities, context_length, architecture })
    }

    /// Whether the model lists `capability` among its capabilities.
    pub open spec fn has_capability(&self, capability: Seq<char>) -> bool {
        exists|i: int| 0 <= i < self.capabilities@.len() && (#[trigger] self.capabilities@[i])@ == capability
    }

    fn lists(&self, capability: &str) -> (r: bool)
        ensures
            r == self.has_capability(capability@),
    {
        let mut i: usize = 0;
        while i < self.capabilities.len()
            invariant
                i <= self.capabilities@.len(),
                forall|j: int| 0 <= j < i ==> (#[trigger] self.capabilities@[j])@ != capability@,
            decreases self.capabilities@.len() - i,
        {
            if str_equals(self.capabilities[i].as_str(), capability) {
                return true;
            }
            i = i + 1;
        }
        false
    }

    /// Whether the model can call tools.
    pub fn supports_tools(&self) -> (r: bool)
        ensures
            r == self.has_capability("tools"@),
    {
        self.lists("tools")
    }

    /// Whether the model accepts images.
    pub fn supports_vision(&self) -> (r: bool)
        ensures
            r == self.has_capability("vision"@),
    {
        self.lists("vision")
    }

    /// Whether the model can reason before it answers.
    pub fn supports_thinking(&self) -> (r: bool)
        ensures
            r == self.has_capability("thinking"@),
    {
        self.lists("thinking")
    }
}

} // verus!
