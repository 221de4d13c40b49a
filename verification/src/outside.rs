//! The calls into other crates that the rules of the gateway rest on.
//!
//! Each function here makes one call and turns its result into plain values.
//! What a call returns is a function of its arguments alone, except for the
//! random numbers, and has a name that the contracts speak of.

use crate::json::{Json, JsonNumber, JsonView, NumberView};
use vstd::prelude::*;

verus! {

/// A parsed JSON document, as `serde_json` holds it.
#[verifier::external_type_specification]
#[verifier::external_body]
pub struct ExValue(serde_json::Value);

/// The document that a `serde_json::Value` holds.
pub uninterp spec fn value_json(value: serde_json::Value) -> JsonView;

/// The document that `serde_json` reads from a text, or the text of its error.
pub uninterp spec fn json_of_text(text: Seq<char>) -> Result<JsonView, Seq<char>>;

/// The document that `serde_json` reads from bytes, or the text of its error.
pub uninterp spec fn json_of_bytes(bytes: Seq<u8>) -> Result<JsonView, Seq<char>>;

/// `serde_json::from_str` at the type `serde_json::Value`: the document, or the
/// text of the error where there is none.
#[verifier::external_body]
fn value_of_text(text: &str) -> (r: Result<serde_json::Value, String>)
    ensures
        match r {
            Ok(value) => json_of_text(text@) == Ok::<_, Seq<char>>(value_json(value)),
            Err(error) => json_of_text(text@) == Err::<JsonView, _>(error@),
        },
{
    serde_json::from_str::<serde_json::Value>(text).map_err(|e| e.to_string())
}

/// `serde_json::from_slice` at the type `serde_json::Value`: the document, or the
/// text of the error where there is none.
#[verifier::external_body]
fn value_of_bytes(bytes: &[u8]) -> (r: Result<serde_json::Value, String>)
    ensures
        match r {
            Ok(value) => json_of_bytes(bytes@) == Ok::<_, Seq<char>>(value_json(value)),
            Err(error) => json_of_bytes(bytes@) == Err::<JsonView, _>(error@),
        },
{
    serde_json::from_slice::<serde_json::Value>(bytes).map_err(|e| e.to_string())
}

/// The variants of `serde_json::Value`, one for one. Of a number it takes what
/// `Number::to_string`, `Number::as_u64` and `Number::as_i64` give.
#[verifier::external_body]
fn json_of_value(value: serde_json::Value) -> (r: Json)
    ensures
        r@ == value_json(value),
{
    match value {
        serde_json::Value::Null => Json::Null,
        serde_json::Value::Bool(b) => Json::Bool(b),
        serde_json::Value::Number(n) => Json::Number(
            JsonNumber { text: n.to_string(), unsigned: n.as_u64(), signed: n.as_i64() },
        ),
        serde_json::Value::String(s) => Json::Text(s),
        serde_json::Value::Array(items) => Json::Array(
            items.into_iter().map(json_of_value).collect(),
        ),
        serde_json::Value::Object(members) => Json::Object(
            members.into_iter().map(|(k, v)| (k, json_of_value(v))).collect(),
        ),
    }
}

/// The document in `text`, or the text of the error where there is none.
pub fn parse_text(text: &str) -> (r: Result<Json, String>)
    ensures
        result_model(r) == json_of_text(text@),
{
    match value_of_text(text) {
        Ok(value) => Ok(json_of_value(value)),
        Err(error) => Err(error),
    }
}

/// The document in `bytes`, or the text of the error where there is none.
pub fn parse_bytes(bytes: &[u8]) -> (r: Result<Json, String>)
    ensures
        result_model(r) == json_of_bytes(bytes@),
{
    match value_of_bytes(bytes) {
        Ok(value) => Ok(json_of_value(value)),
        Err(error) => Err(error),
    }
}

/// The view of a document or an error.
pub open spec fn result_model(r: Result<Json, String>) -> Result<JsonView, Seq<char>> {
    match r {
        Ok(value) => Ok(value@),
        Err(error) => Err(error@),
    }
}

/// The JSON number in a text as a floating-point number, as `serde_json` prints
/// it, where the text is a number.
pub uninterp spec fn float_of(text: Seq<char>) -> Option<NumberView>;

/// The text is an integer that a floating-point number holds exactly.
pub open spec fn exact_integer(text: Seq<char>) -> bool {
    exists|n: nat| n <= 9007199254740992 && text == #[trigger] crate::text::decimal(n)
}

/// `serde_json::Number::as_f64` of the number in `text`, and what
/// `Number::from_f64` makes of it: a number that is no integer to `serde_json`.
/// An integer up to 2 to the power of 53 keeps its digits, with `.0` behind
/// them: the shortest decimal that reads back as the same number, which is
/// printed without an exponent up to sixteen digits.
#[verifier::external_body]
pub(crate) fn as_float(text: &str) -> (r: Option<JsonNumber>)
    ensures
        crate::video::opt_number(r) == float_of(text@),
        exact_integer(text@) ==> crate::video::opt_number(r) == Some(
            NumberView { text: text@ + ".0"@, unsigned: None, signed: None },
        ),
{
    let number = serde_json::from_str::<serde_json::Number>(text).ok()?;
    let n = serde_json::Number::from_f64(number.as_f64()?)?;
    Some(JsonNumber { text: n.to_string(), unsigned: n.as_u64(), signed: n.as_i64() })
}

/// The SHA-256 digest of `bytes`.
pub uninterp spec fn sha256_of(bytes: Seq<u8>) -> Seq<u8>;

/// `sha2::Sha256::digest`: the SHA-256 digest, 32 bytes long.
#[verifier::external_body]
pub(crate) fn sha256(bytes: &[u8]) -> (r: Vec<u8>)
    ensures
        r@ == sha256_of(bytes@),
        r@.len() == 32,
{
    <sha2::Sha256 as sha2::Digest>::digest(bytes).to_vec()
}

/// What `text` decodes to in the standard base64 alphabet with padding, or the
/// text of the error.
pub uninterp spec fn base64_of(text: Seq<char>) -> Result<Seq<u8>, Seq<char>>;

/// The model of decoded bytes.
pub open spec fn bytes_model(r: Result<Vec<u8>, String>) -> Result<Seq<u8>, Seq<char>> {
    match r {
        Ok(bytes) => Ok(bytes@),
        Err(error) => Err(error@),
    }
}

/// `decode` of base64's `STANDARD` engine: the bytes, or the text of the error
/// where the text is not their encoding.
#[verifier::external_body]
pub(crate) fn base64_decode(text: &str) -> (r: Result<Vec<u8>, String>)
    ensures
        bytes_model(r) == base64_of(text@),
{
    base64::Engine::decode(&base64::engine::general_purpose::STANDARD, text)
        .map_err(|error| error.to_string())
}

/// `rand::random` at the type `u8`: some byte.
#[verifier::external_body]
pub(crate) fn random_byte() -> (r: u8)
{
    rand::random::<u8>()
}

/// The host of a URL: a name or an address.
#[derive(Debug)]
pub enum UrlHost {
    Missing,
    Domain,
    V4([u8; 4]),
    V6([u16; 8]),
}

/// The parts of a URL that the rules read.
#[derive(Debug)]
pub struct UrlParts {
    pub scheme: String,
    pub username: String,
    pub has_password: bool,
    pub host: Option<String>,
    pub address: UrlHost,
}

/// The model of [`UrlParts`].
pub struct UrlView {
    pub scheme: Seq<char>,
    pub username: Seq<char>,
    pub has_password: bool,
    pub host: Option<Seq<char>>,
    pub address: UrlHost,
}

impl View for UrlParts {
    type V = UrlView;

    open spec fn view(&self) -> UrlView {
        UrlView {
            scheme: self.scheme@,
            username: self.username@,
            has_password: self.has_password,
            host: crate::text::opt_view(self.host),
            address: self.address,
        }
    }
}

/// The parts of the URL that `url` reads from a text, where the text is one.
pub uninterp spec fn url_of(text: Seq<char>) -> Option<UrlView>;

/// `url::Url::parse`, and of the URL its `scheme`, `username`, `password`,
/// `host_str` and `host`.
#[verifier::external_body]
pub(crate) fn parse_url(text: &str) -> (r: Option<UrlParts>)
    ensures
        match r {
            Some(parts) => url_of(text@) == Some(parts@),
            None => url_of(text@) is None,
        },
{
    let u = url::Url::parse(text).ok()?;
    let address = match u.host() {
        Some(url::Host::Ipv4(a)) => UrlHost::V4(a.octets()),
        Some(url::Host::Ipv6(a)) => UrlHost::V6(a.segments()),
        Some(url::Host::Domain(_)) => UrlHost::Domain,
        None => UrlHost::Missing,
    };
    let (scheme, username) = (u.scheme().to_string(), u.username().to_string());
    let (has_password, host) = (u.password().is_some(), u.host_str().map(str::to_string));
    Some(UrlParts { scheme, username, has_password, host, address })
}

} // verus!
