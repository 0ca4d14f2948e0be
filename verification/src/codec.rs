//! Calls into `serde_json`, `bs58`, `url` and std's `Debug` for `str`, each
//! behind a trusted wrapper whose contract names what the crate returns.

use vstd::prelude::*;

verus! {

/// The characters of an optional string.
pub open spec fn opt_text(o: Option<String>) -> Option<Seq<char>> {
    match o {
        Some(s) => Some(s@),
        None => None,
    }
}

/// What `serde_json` reads from `text` under `key`: `None` where `text` is not
/// a JSON document, `Some(None)` where the document has no string member named
/// `key`, and otherwise that member's string.
pub uninterp spec fn json_string_member(text: Seq<char>, key: Seq<char>) -> Option<Option<Seq<char>>>;

/// `serde_json::from_str::<serde_json::Value>` on `text`, then `Value::get(key)`
/// and `Value::as_str` on what came back. The contract only ties the result to
/// the name `json_string_member`; nothing more of JSON is claimed.
#[verifier::external_body]
pub(crate) fn read_json_string_member(text: &str, key: &str) -> (r: Option<Option<String>>)
    ensures
        match r {
            Some(m) => json_string_member(text@, key@) == Some(opt_text(m)),
            None => json_string_member(text@, key@) is None,
        },
{
    match serde_json::from_str::<serde_json::Value>(text) {
        Ok(v) => match v.get(key) {
            Some(f) => match f.as_str() {
                Some(s) => Some(Some(s.to_string())),
                None => Some(None),
            },
            None => Some(None),
        },
        Err(_) => None,
    }
}

/// The compact JSON text that `serde_json` writes for the object with the two
/// string members `k1: v1` and `k2: v2`.
pub uninterp spec fn json_pair_object(k1: Seq<char>, v1: Seq<char>, k2: Seq<char>, v2: Seq<char>) -> Seq<char>;

/// Builds a `serde_json::Value::Object` with the two string members and writes it
/// with `Value::to_string`. Besides naming the text, the contract claims what
/// serde_json's documentation promises of its own output: reading a member of
/// distinct keys back gives the string that was written.
#[verifier::external_body]
pub(crate) fn write_json_pair_object(k1: &str, v1: &str, k2: &str, v2: &str) -> (r: String)
    ensures
        r@ == json_pair_object(k1@, v1@, k2@, v2@),
        k1@ != k2@ ==> json_string_member(r@, k1@) == Some(Some(v1@)),
        k1@ != k2@ ==> json_string_member(r@, k2@) == Some(Some(v2@)),
{
    let mut m = serde_json::Map::new();
    m.insert(k1.to_string(), serde_json::Value::String(v1.to_string()));
    m.insert(k2.to_string(), serde_json::Value::String(v2.to_string()));
    serde_json::Value::Object(m).to_string()
}

/// The Bitcoin Base58 alphabet: the digit `d` is written as its `d`-th letter.
pub open spec fn base58_alphabet() -> Seq<char> {
    "123456789ABCDEFGHJKLMNPQRSTUVWXYZabcdefghijkmnopqrstuvwxyz"@
}

/// The number that big-endian bytes spell.
pub open spec fn be_value(b: Seq<u8>) -> nat
    decreases b.len(),
{
    if b.len() == 0 { 0 } else { be_value(b.drop_last()) * 256 + b.last() as nat }
}

/// The base-58 digits of `n`, most significant first, without leading zeros
/// (none for zero).
pub open spec fn base58_digits(n: nat) -> Seq<nat>
    decreases n,
{
    if n == 0 { Seq::empty() } else { base58_digits(n / 58).push(n % 58) }
}

/// The number of zero bytes at the front of `b`.
pub open spec fn leading_zero_bytes(b: Seq<u8>) -> nat
    decreases b.len(),
{
    if b.len() > 0 && b[0] == 0 { 1 + leading_zero_bytes(b.drop_first()) } else { 0 }
}

/// The Base58 text (Bitcoin alphabet) of `bytes`: a `1` for each leading zero
/// byte, then the base-58 digits of the number that the bytes spell.
pub open spec fn base58_text(bytes: Seq<u8>) -> Seq<char> {
    Seq::new(leading_zero_bytes(bytes), |i: int| '1')
        + base58_digits(be_value(bytes)).map_values(|d: nat| base58_alphabet()[d as int])
}

/// The bytes that `bs58` decodes from `text`, or `None` where it refuses it.
pub uninterp spec fn base58_bytes(text: Seq<char>) -> Option<Seq<u8>>;

/// `bs58::encode(bytes).into_string()`. Claims that the text is the Base58
/// encoding with the Bitcoin alphabet (the crate's default), and, as the
/// crate's documented round trip shows, that decoding it gives the bytes back.
#[verifier::external_body]
pub(crate) fn encode_base58(bytes: &[u8]) -> (r: String)
    ensures
        r@ == base58_text(bytes@),
        base58_bytes(r@) == Some(bytes@),
{
    bs58::encode(bytes).into_string()
}

/// `bs58::decode(text).into_vec()`, with its error dropped.
#[verifier::external_body]
pub(crate) fn decode_base58(text: &str) -> (r: Option<Vec<u8>>)
    ensures
        match r {
            Some(b) => base58_bytes(text@) == Some(b@),
            None => base58_bytes(text@) is None,
        },
{
    match bs58::decode(text).into_vec() {
        Ok(b) => Some(b),
        Err(_) => None,
    }
}

/// What `url::Url::parse` gives for `text`: on success the scheme, the host
/// (if any) and the port or the scheme's known default port (if any); on
/// failure the text of the parse error.
pub uninterp spec fn url_reading(text: Seq<char>) -> Result<(Seq<char>, Option<Seq<char>>, Option<u16>), Seq<char>>;

/// The parts of a parsed URL that the probe reads.
pub struct UrlParts {
    pub scheme: String,
    pub host: Option<String>,
    pub port: Option<u16>,
}

/// The plain values a URL reading is made of.
pub open spec fn url_parts_view(r: Result<UrlParts, String>) -> Result<(Seq<char>, Option<Seq<char>>, Option<u16>), Seq<char>> {
    match r {
        Ok(p) => Ok((p.scheme@, opt_text(p.host), p.port)),
        Err(e) => Err(e@),
    }
}

/// `url::Url::parse(text)`, read through `Url::scheme`, `Url::host_str` and
/// `Url::port_or_known_default`, or the parse error's `to_string()`.
#[verifier::external_body]
pub(crate) fn parse_url(text: &str) -> (r: Result<UrlParts, String>)
    ensures
        url_parts_view(r) == url_reading(text@),
{
    match url::Url::parse(text) {
        Ok(u) => Ok(UrlParts {
            scheme: u.scheme().to_string(),
            host: match u.host_str() {
                Some(h) => Some(h.to_string()),
                None => None,
            },
            port: u.port_or_known_default(),
        }),
        Err(e) => Err(e.to_string()),
    }
}

/// The text that std's `Debug` writes for a string: the string quoted, with
/// quotes, backslashes and control characters escaped.
pub uninterp spec fn debug_quoted(text: Seq<char>) -> Seq<char>;

/// `format!("{:?}", text)` on a `&str`.
#[verifier::external_body]
pub(crate) fn quote_debug(text: &str) -> (r: String)
    ensures
        r@ == debug_quoted(text@),
{
    format!("{:?}", text)
}

} // verus!
