//! The requests sent to an Ollama server's HTTP API and the decision taken on
//! the status of its replies. Sending, receiving and JSON decoding are left to
//! the caller; this module fixes what is sent and what a reply means.

use vstd::prelude::*;
use vstd::string::StringExecFns;
use vstd::utf8::encode_utf8;

use crate::show::opt_string_view;
use crate::text::concat_str;

verus! {

/// The HTTP methods the API is called with.
#[derive(Clone, Copy, Debug, PartialEq, Eq, Structural)]
pub enum ApiMethod {
    Get,
    Post,
}

/// A request to the server, ready to be sent.
#[derive(Clone, Debug, PartialEq)]
pub struct ApiRequest {
    pub method: ApiMethod,
    pub uri: String,
    /// Header names and values, in the order in which they are sent.
    pub headers: Vec<(String, String)>,
    /// The body; `None` for an empty one.
    pub body: Option<String>,
}

/// Why a call to the API failed.
#[derive(Clone, Debug, PartialEq)]
pub enum ApiError {
    /// The server address does not make a valid URI.
    InvalidUri,
    /// A header value holds a byte that HTTP does not allow there.
    InvalidHeader,
    /// The server answered with a status other than success, and this body.
    Status { code: u16, body: String },
}

/// The mathematical content of an [`ApiRequest`].
pub struct RequestView {
    pub method: ApiMethod,
    pub uri: Seq<char>,
    pub headers: Seq<(Seq<char>, Seq<char>)>,
    pub body: Option<Seq<char>>,
}

pub open spec fn headers_view(h: Seq<(String, String)>) -> Seq<(Seq<char>, Seq<char>)> {
    h.map_values(|p: (String, String)| (p.0@, p.1@))
}

impl View for ApiRequest {
    type V = RequestView;

    open spec fn view(&self) -> RequestView {
        RequestView {
            method: self.method,
            uri: self.uri@,
            headers: headers_view(self.headers@),
            body: opt_string_view(self.body),
        }
    }
}

pub open spec fn result_view(r: Result<ApiRequest, ApiError>) -> Result<RequestView, ApiError> {
    match r {
        Ok(req) => Ok(req@),
        Err(e) => Err(e),
    }
}

pub open spec fn opt_str_view(s: Option<&str>) -> Option<Seq<char>> {
    match s {
        Some(t) => Some(t@),
        None => None,
    }
}

/// Whether `http`'s URI parser accepts the text `uri`.
pub uninterp spec fn http_uri_accepts(uri: Seq<char>) -> bool;

/// Asks the URI parser of the `http` crate (`http::Uri::try_from(&str)`, which the
/// request builder also uses) whether `uri` is a valid URI. The contract claims
/// only that the answer depends on the text alone; which texts are valid is not stated.
#[verifier::external_body]
fn uri_accepted(uri: &str) -> (r: bool)
    ensures
        r == http_uri_accepts(uri@),
{
    http::Uri::try_from(uri).is_ok()
}

/// A byte that may stand in an HTTP header value: a tab, or a visible or
/// space byte other than DEL; bytes of multi-byte characters are all allowed.
pub open spec fn header_byte_ok(b: u8) -> bool {
    (b >= 32 && b != 127) || b == 9
}

pub open spec fn header_value_ok(bytes: Seq<u8>) -> bool {
    forall|i: int| 0 <= i < bytes.len() ==> header_byte_ok(#[trigger] bytes[i])
}

/// Asks `http::HeaderValue::from_str` whether `value` may be a header value.
/// Its source accepts exactly the texts whose UTF-8 bytes all pass `header_byte_ok`,
/// which is what the contract claims.
#[verifier::external_body]
fn header_value_accepted(value: &str) -> (r: bool)
    ensures
        r == header_value_ok(encode_utf8(value@)),
{
    http::HeaderValue::from_str(value).is_ok()
}

/// How `serde_json` writes one character inside a JSON string.
pub open spec fn json_escape(c: char) -> Seq<char> {
    if c == '"' {
        seq!['\\', '"']
    } else if c == '\\' {
        seq!['\\', '\\']
    } else if c == '\u{8}' {
        seq!['\\', 'b']
    } else if c == '\t' {
        seq!['\\', 't']
    } else if c == '\n' {
        seq!['\\', 'n']
    } else if c == '\u{c}' {
        seq!['\\', 'f']
    } else if c == '\r' {
        seq!['\\', 'r']
    } else if (c as u32) < 32 {
        seq!['\\', 'u', '0', '0', hex_digit((c as u32) / 16), hex_digit((c as u32) % 16)]
    } else {
        seq![c]
    }
}

pub open spec fn hex_digit(n: u32) -> char {
    if n < 10 {
        (48 + n) as char
    } else {
        (87 + n) as char
    }
}

pub open spec fn json_escaped(s: Seq<char>) -> Seq<char>
    decreases s.len(),
{
    if s.len() == 0 {
        Seq::empty()
    } else {
        json_escaped(s.drop_last()) + json_escape(s.last())
    }
}

/// The JSON string literal that stands for `s`.
pub open spec fn json_string_literal(s: Seq<char>) -> Seq<char> {
    seq!['"'] + json_escaped(s) + seq!['"']
}

/// Writes `s` as a JSON string with `serde_json` (the compact `Display` of a
/// `serde_json::Value::String`). Its source puts the text in double quotes and
/// escapes `"`, `\` and the control characters below U+0020 as `json_escape`
/// says; that is what the contract claims.
#[verifier::external_body]
fn json_string(s: &str) -> (r: String)
    ensures
        r@ == json_string_literal(s@),
{
    serde_json::Value::String(s.to_owned()).to_string()
}

/// The value of a hexadecimal digit as `serde_json` writes it.
pub open spec fn hex_value(ch: char) -> u32 {
    if (ch as u32) >= 97 {
        ((ch as u32) - 87) as u32
    } else {
        ((ch as u32) - 48) as u32
    }
}

/// The character that an escape `\x` stands for, `x` other than `u`.
pub open spec fn unescape(x: char) -> char {
    if x == 'b' {
        '\u{8}'
    } else if x == 't' {
        '\t'
    } else if x == 'n' {
        '\n'
    } else if x == 'f' {
        '\u{c}'
    } else if x == 'r' {
        '\r'
    } else {
        x
    }
}

/// Reads the first character of the inside of a JSON string: the character and
/// how many characters of the text it took.
pub open spec fn decode_first(x: Seq<char>) -> (char, int) {
    if x[0] != '\\' {
        (x[0], 1)
    } else if x[1] == 'u' {
        ((16 * hex_value(x[4]) + hex_value(x[5])) as char, 6)
    } else {
        (unescape(x[1]), 2)
    }
}

proof fn lemma_hex_round_trip(d: u32)
    requires
        d < 16,
    ensures
        hex_value(hex_digit(d)) == d,
{
}

/// Every escape is read back as the character it was made from, whatever follows it.
proof fn lemma_decode_escape(c: char, rest: Seq<char>)
    ensures
        json_escape(c).len() >= 1,
        decode_first(json_escape(c) + rest) == (c, json_escape(c).len() as int),
{
    let x = json_escape(c) + rest;
    if c != '"' && c != '\\' && c != '\u{8}' && c != '\t' && c != '\n' && c != '\u{c}' && c != '\r' && (c as u32) < 32 {
        let v = c as u32;
        lemma_hex_round_trip(v / 16);
        lemma_hex_round_trip(v % 16);
        assert(x[4] == hex_digit(v / 16));
        assert(x[5] == hex_digit(v % 16));
        assert(16 * (v / 16) + v % 16 == v);
        assert(((16 * hex_value(x[4]) + hex_value(x[5])) as char) == c);
    }
}

/// Escaping a text is escaping its parts one after the other.
proof fn lemma_escaped_concat(a: Seq<char>, b: Seq<char>)
    ensures
        json_escaped(a + b) == json_escaped(a) + json_escaped(b),
    decreases b.len(),
{
    if b.len() == 0 {
        assert(a + b =~= a);
        assert(json_escaped(a) + json_escaped(b) =~= json_escaped(a));
    } else {
        assert((a + b).drop_last() =~= a + b.drop_last());
        assert((a + b).last() == b.last());
        lemma_escaped_concat(a, b.drop_last());
        assert(json_escaped(a) + json_escaped(b.drop_last()) + json_escape(b.last())
            =~= json_escaped(a) + (json_escaped(b.drop_last()) + json_escape(b.last())));
    }
}

proof fn lemma_escaped_first(s: Seq<char>)
    requires
        s.len() > 0,
    ensures
        json_escaped(s) == json_escape(s[0]) + json_escaped(s.drop_first()),
{
    let h = seq![s[0]];
    assert(h + s.drop_first() =~= s);
    lemma_escaped_concat(h, s.drop_first());
    assert(h.drop_last() =~= Seq::<char>::empty());
    assert(h.last() == s[0]);
    assert(json_escaped(h.drop_last()) =~= Seq::<char>::empty());
    assert(json_escaped(h) =~= json_escaped(h.drop_last()) + json_escape(h.last()));
    assert(json_escaped(h) =~= json_escape(s[0]));
}

/// Different texts are escaped differently.
proof fn lemma_escaped_injective(s1: Seq<char>, s2: Seq<char>)
    requires
        json_escaped(s1) == json_escaped(s2),
    ensures
        s1 == s2,
    decreases s1.len(),
{
    if s1.len() == 0 {
        if s2.len() > 0 {
            lemma_escaped_first(s2);
            lemma_decode_escape(s2[0], json_escaped(s2.drop_first()));
        }
        assert(s1 =~= s2);
    } else {
        lemma_escaped_first(s1);
        lemma_decode_escape(s1[0], json_escaped(s1.drop_first()));
        if s2.len() == 0 {
            assert(json_escaped(s2).len() == 0);
        } else {
            lemma_escaped_first(s2);
            lemma_decode_escape(s2[0], json_escaped(s2.drop_first()));
            let x = json_escaped(s1);
            let k = json_escape(s1[0]).len() as int;
            assert(s1[0] == s2[0]);
            assert(json_escaped(s1.drop_first()) =~= x.skip(k));
            assert(json_escaped(s2.drop_first()) =~= x.skip(k));
            lemma_escaped_injective(s1.drop_first(), s2.drop_first());
            assert(s1 =~= seq![s1[0]] + s1.drop_first());
            assert(s2 =~= seq![s2[0]] + s2.drop_first());
        }
    }
}

/// Different texts make different JSON strings, so a JSON string is read back
/// as exactly the text it was written from.
pub proof fn law_json_string_injective(s1: Seq<char>, s2: Seq<char>)
    requires
        json_string_literal(s1) == json_string_literal(s2),
    ensures
        s1 == s2,
{
    let l1 = json_string_literal(s1);
    let l2 = json_string_literal(s2);
    assert(json_escaped(s1) =~= l1.subrange(1, l1.len() - 1));
    assert(json_escaped(s2) =~= l2.subrange(1, l2.len() - 1));
    lemma_escaped_injective(s1, s2);
}

/// A character that a JSON string holds as it is.
pub open spec fn json_plain_char(c: char) -> bool {
    c != '"' && c != '\\' && (c as u32) >= 32
}

/// A text without quotes, backslashes or control characters is written as it is.
pub proof fn lemma_plain_text_unescaped(s: Seq<char>)
    requires
        forall|i: int| 0 <= i < s.len() ==> json_plain_char(#[trigger] s[i]),
    ensures
        json_escaped(s) == s,
    decreases s.len(),
{
    if s.len() > 0 {
        let p = s.drop_last();
        assert forall|i: int| 0 <= i < p.len() implies json_plain_char(#[trigger] p[i]) by {
            assert(p[i] == s[i]);
        }
        lemma_plain_text_unescaped(p);
        assert(json_plain_char(s[s.len() - 1]));
        assert(p + seq![s.last()] =~= s);
    }
}

/// A text without quotes, backslashes or control characters becomes the JSON
/// string made of that text between double quotes.
pub proof fn lemma_plain_text_quoted(s: Seq<char>)
    requires
        forall|i: int| 0 <= i < s.len() ==> json_plain_char(#[trigger] s[i]),
    ensures
        json_string_literal(s) == seq!['"'] + s + seq!['"'],
{
    lemma_plain_text_unescaped(s);
}

/// The value of the `Authorization` header for an API key.
pub open spec fn bearer(key: Seq<char>) -> Seq<char> {
    "Bearer "@ + key
}

/// The `Authorization` value is the seven characters `Bearer ` followed by the
/// whole key: it is seven characters longer than the key and ends with all of it.
pub proof fn law_bearer_holds_whole_key(k: Seq<char>)
    ensures
        bearer(k).len() == k.len() + 7,
        bearer(k).take(7) == seq!['B', 'e', 'a', 'r', 'e', 'r', ' '],
        bearer(k).skip(7) == k,
{
    reveal_strlit("Bearer ");
    assert(bearer(k).take(7) =~= seq!['B', 'e', 'a', 'r', 'e', 'r', ' ']);
    assert(bearer(k).skip(7) =~= k);
}

/// A request built with an API key sends, after the given header, an
/// `Authorization` header that holds the whole key after `Bearer `.
pub proof fn law_request_sends_whole_key(
    method: ApiMethod,
    uri: Seq<char>,
    uri_ok: bool,
    first: (Seq<char>, Seq<char>),
    k: Seq<char>,
    body: Option<Seq<char>>,
)
    requires
        planned(method, uri, uri_ok, first, Some(k), body) is Ok,
    ensures
        ({
            let h = planned(method, uri, uri_ok, first, Some(k), body)->Ok_0.headers;
            &&& h.len() == 2
            &&& h[0] == first
            &&& h[1].0 == "Authorization"@
            &&& h[1].1.len() == k.len() + 7
            &&& h[1].1.skip(7) == k
        }),
{
    law_bearer_holds_whole_key(k);
}

/// The address of an endpoint of the API at `api_url`.
pub open spec fn endpoint(api_url: Seq<char>, path: Seq<char>) -> Seq<char> {
    api_url + path
}

/// The headers sent: the given one, then the API key as a bearer token when there is one.
pub open spec fn planned_headers(first: (Seq<char>, Seq<char>), api_key: Option<Seq<char>>) -> Seq<(Seq<char>, Seq<char>)> {
    match api_key {
        Some(k) => seq![first, ("Authorization"@, bearer(k))],
        None => seq![first],
    }
}

/// Whether the header carrying the API key, if any, may be sent.
pub open spec fn key_header_ok(api_key: Option<Seq<char>>) -> bool {
    match api_key {
        Some(k) => header_value_ok(encode_utf8(bearer(k))),
        None => true,
    }
}

/// The request, or the error that building it gives: an unparsable address
/// first, then an API key that cannot stand in a header.
pub open spec fn planned(
    method: ApiMethod,
    uri: Seq<char>,
    uri_ok: bool,
    first: (Seq<char>, Seq<char>),
    api_key: Option<Seq<char>>,
    body: Option<Seq<char>>,
) -> Result<RequestView, ApiError> {
    if !uri_ok {
        Err(ApiError::InvalidUri)
    } else if !key_header_ok(api_key) {
        Err(ApiError::InvalidHeader)
    } else {
        Ok(RequestView { method, uri, headers: planned_headers(first, api_key), body })
    }
}

/// Joins the address of the server and the path of an endpoint.
pub fn endpoint_uri(api_url: &str, path: &str) -> (r: String)
    ensures
        r@ == endpoint(api_url@, path@),
{
    concat_str(api_url, path)
}

/// The value of the `Authorization` header for an API key.
pub fn bearer_token(api_key: &str) -> (r: String)
    ensures
        r@ == bearer(api_key@),
{
    concat_str("Bearer ", api_key)
}

/// Assembles a request from its parts, given whether `http` accepts its URI.
pub fn plan_request(
    method: ApiMethod,
    uri: String,
    uri_ok: bool,
    first_name: &str,
    first_value: &str,
    api_key: Option<&str>,
    body: Option<String>,
) -> (r: Result<ApiRequest, ApiError>)
    ensures
        result_view(r) == planned(
            method,
            uri@,
            uri_ok,
            (first_name@, first_value@),
            opt_str_view(api_key),
            opt_string_view(body),
        ),
{
    if !uri_ok {
        return Err(ApiError::InvalidUri);
    }
    let mut headers: Vec<(String, String)> = Vec::new();
    headers.push((String::from_str(first_name), String::from_str(first_value)));
    match api_key {
        Some(k) => {
            let token = bearer_token(k);
            if !header_value_accepted(token.as_str()) {
                return Err(ApiError::InvalidHeader);
            }
            headers.push((String::from_str("Authorization"), token));
        },
        None => {},
    }
    let ghost expected = planned_headers((first_name@, first_value@), opt_str_view(api_key));
    assert(headers_view(headers@) =~= expected);
    Ok(ApiRequest { method, uri, headers, body })
}

/// The request that asks for a chat reply, streamed line by line; `payload`
/// is the chat request encoded as JSON.
pub fn chat_request(api_url: &str, api_key: Option<&str>, payload: String) -> (r: Result<ApiRequest, ApiError>)
    ensures
        result_view(r) == planned(
            ApiMethod::Post,
            endpoint(api_url@, "/api/chat"@),
            http_uri_accepts(endpoint(api_url@, "/api/chat"@)),
            ("Content-Type"@, "application/json"@),
            opt_str_view(api_key),
            Some(payload@),
        ),
{
    let uri = endpoint_uri(api_url, "/api/chat");
    let ok = uri_accepted(uri.as_str());
    plan_request(ApiMethod::Post, uri, ok, "Content-Type", "application/json", api_key, Some(payload))
}

/// The request that lists the models the server has.
pub fn models_request(api_url: &str, api_key: Option<&str>) -> (r: Result<ApiRequest, ApiError>)
    ensures
        result_view(r) == planned(
            ApiMethod::Get,
            endpoint(api_url@, "/api/tags"@),
            http_uri_accepts(endpoint(api_url@, "/api/tags"@)),
            ("Accept"@, "application/json"@),
            opt_str_view(api_key),
            None,
        ),
{
    let uri = endpoint_uri(api_url, "/api/tags");
    let ok = uri_accepted(uri.as_str());
    plan_request(ApiMethod::Get, uri, ok, "Accept", "application/json", api_key, None)
}

/// The JSON object that names the model whose details are asked for.
pub open spec fn show_body(model: Seq<char>) -> Seq<char> {
    "{\"model\":"@ + json_string_literal(model) + "}"@
}

/// The body that asks about a model holds the whole name: two names give the
/// same body only when they are the same name.
pub proof fn law_show_body_names_the_whole_model(m1: Seq<char>, m2: Seq<char>)
    requires
        show_body(m1) == show_body(m2),
    ensures
        m1 == m2,
{
    let p = "{\"model\":"@;
    let q = "}"@;
    let b1 = show_body(m1);
    let b2 = show_body(m2);
    let l1 = json_string_literal(m1);
    let l2 = json_string_literal(m2);
    assert(b1.len() == b2.len());
    assert(l1 =~= b1.subrange(p.len() as int, b1.len() - q.len()));
    assert(l2 =~= b2.subrange(p.len() as int, b2.len() - q.len()));
    law_json_string_injective(m1, m2);
}

/// The request that asks for the details of the model `model`.
pub fn show_request(api_url: &str, api_key: Option<&str>, model: &str) -> (r: Result<ApiRequest, ApiError>)
    ensures
        result_view(r) == planned(
            ApiMethod::Post,
            endpoint(api_url@, "/api/show"@),
            http_uri_accepts(endpoint(api_url@, "/api/show"@)),
            ("Content-Type"@, "application/json"@),
            opt_str_view(api_key),
            Some(show_body(model@)),
        ),
{
    let uri = endpoint_uri(api_url, "/api/show");
    let ok = uri_accepted(uri.as_str());
    let quoted = json_string(model);
    let body = concat_str("{\"model\":", quoted.as_str()).concat("}");
    plan_request(ApiMethod::Post, uri, ok, "Content-Type", "application/json", api_key, Some(body))
}

/// A status in the 2xx range.
pub open spec fn is_success_code(code: u16) -> bool {
    200 <= code < 300
}

/// A status reports success exactly when it lies in 200..=299; every other
/// status, informational, redirection, client error or server error alike,
/// makes `check_status` fail with that status and body.
pub proof fn law_success_is_exactly_2xx(code: u16)
    ensures
        is_success_code(code) <==> (200 <= code && code <= 299),
        code < 200 ==> !is_success_code(code),
        300 <= code ==> !is_success_code(code),
{
}

/// Whether a reply's status reports success.
pub fn is_success(code: u16) -> (r: bool)
    ensures
        r == is_success_code(code),
{
    200 <= code && code < 300
}

/// Accepts a reply by its status: the body when the status reports success,
/// else an error that carries the status and the body.
pub fn check_status(code: u16, body: String) -> (r: Result<String, ApiError>)
    ensures
        is_success_code(code) ==> r == Ok::<String, ApiError>(body),
        !is_success_code(code) ==> r == Err::<String, ApiError>(ApiError::Status { code, body }),
{
    if is_success(code) {
        Ok(body)
    } else {
        Err(ApiError::Status { code, body })
    }
}

} // verus!
