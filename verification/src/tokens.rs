//! Sealed tokens: json web tokens signed with a shared secret (HS256), whose claims are an expiry
//! (`exp`, in seconds since the unix epoch) and one more field. Session tokens carry the user's
//! id, stored access tokens the vendor's token, and the job and render queues the job itself.

use vstd::prelude::*;
use crate::time::{day_after, epoch_seconds, seconds_a_day_from_now, timestamp_in_range};

verus! {

/// The value of a claim, as it was read from a token.
#[derive(Debug, Clone, PartialEq, Eq)]
pub enum ClaimValue {
    /// A json string: the text it holds.
    Text(String),
    /// Any other json value: its json text.
    Json(String),
}

/// The abstract value of a claim.
pub enum ClaimModel {
    /// A json string: the text it holds.
    Text(Seq<char>),
    /// Any other json value: its json text.
    Json(Seq<char>),
}

impl View for ClaimValue {
    type V = ClaimModel;

    open spec fn view(&self) -> ClaimModel {
        match self {
            ClaimValue::Text(text) => ClaimModel::Text(text@),
            ClaimValue::Json(json) => ClaimModel::Json(json@),
        }
    }
}

/// The abstract value of what opening a token gave.
pub open spec fn opened_view(opened: Option<(u64, ClaimValue)>) -> Option<(u64, ClaimModel)> {
    match opened {
        Some((exp, value)) => Some((exp, value@)),
        None => None,
    }
}

/// The expiry and the named claim of a token whose HS256 signature the secret verifies, and
/// whose claims are a json object with a non-negative integer `exp` and the named field; `None`
/// for any other token. The reading of the clock that also decides whether a token opens is not
/// part of it.
pub uninterp spec fn signed_claim(token: Seq<char>, secret: Seq<char>, field: Seq<char>) -> Option<
    (u64, ClaimModel),
>;

/// The token the secret signs (HS256, with the default header) over the claims object that holds
/// `exp` and the named field, the field's value given by its json text.
pub uninterp spec fn sealed_claims(
    exp: u64,
    field: Seq<char>,
    value_json: Seq<char>,
    secret: Seq<char>,
) -> Seq<char>;

/// The claim that a field written as this json text reads back as, once it is signed into a
/// token and the token is opened: the text a json string holds, or the json text serde_json writes
/// of any other value; `None` when serde_json does not read the text, or the value does not read
/// back.
pub uninterp spec fn json_claim(json: Seq<char>) -> Option<ClaimModel>;

/// The claim names that jsonwebtoken itself reads when it opens a token.
pub open spec fn registered_claim(field: Seq<char>) -> bool {
    field == "exp"@ || field == "nbf"@ || field == "sub"@ || field == "iss"@ || field == "aud"@
}

/// The hexadecimal digit of a number below 16, in lower case.
pub open spec fn hex_digit(n: u32) -> char {
    seq!['0', '1', '2', '3', '4', '5', '6', '7', '8', '9', 'a', 'b', 'c', 'd', 'e', 'f'][n as int]
}

/// How serde_json writes a character inside a json string: a quote and a backslash behind a
/// backslash; backspace, tab, line feed, form feed and carriage return by their short escapes;
/// the other control characters as `\u00` and two hexadecimal digits; any other character as
/// itself.
pub open spec fn escaped_char(c: char) -> Seq<char> {
    if c == '"' {
        seq!['\\', '"']
    } else if c == '\\' {
        seq!['\\', '\\']
    } else if c == '\x08' {
        seq!['\\', 'b']
    } else if c == '\t' {
        seq!['\\', 't']
    } else if c == '\n' {
        seq!['\\', 'n']
    } else if c == '\x0C' {
        seq!['\\', 'f']
    } else if c == '\r' {
        seq!['\\', 'r']
    } else if (c as u32) < 0x20 {
        seq!['\\', 'u', '0', '0', hex_digit((c as u32) / 16), hex_digit((c as u32) % 16)]
    } else {
        seq![c]
    }
}

/// The characters of a text, each as serde_json writes it inside a json string.
pub open spec fn escaped_text(text: Seq<char>) -> Seq<char>
    decreases text.len(),
{
    if text.len() == 0 {
        seq![]
    } else {
        escaped_text(text.drop_last()) + escaped_char(text.last())
    }
}

/// The json text of a string, as serde_json writes it: its escaped characters between quotes.
pub open spec fn json_string_text(text: Seq<char>) -> Seq<char> {
    seq!['"'] + escaped_text(text) + seq!['"']
}

/// Opens a token with a secret and reads its expiry and one of its claims.
///
/// Calls `jsonwebtoken::decode` with an HS256 validation, which also refuses a token whose expiry
/// is past by the clock. The claim is that a token that opens gives the expiry and the claim
/// that `signed_claim` names; whether it opens at all depends on the clock and is left unsaid.
/// Like the rest of the platform, it relies on a system clock that reads after 1970.
#[verifier::external_body]
pub(crate) fn open_claims(token: &str, secret: &str, field: &str) -> (opened: Option<(u64, ClaimValue)>)
    ensures
        opened is Some ==> signed_claim(token@, secret@, field@) == opened_view(opened),
{
    let key = jsonwebtoken::DecodingKey::from_secret(secret.as_bytes());
    let validation = jsonwebtoken::Validation::new(jsonwebtoken::Algorithm::HS256);
    let decoded = jsonwebtoken::decode::<serde_json::Map<String, serde_json::Value>>(token, &key, &validation);
    let claims = decoded.ok()?.claims;
    let exp = claims.get("exp")?.as_u64()?;
    let value = match claims.get(field)? {
        serde_json::Value::String(text) => ClaimValue::Text(text.clone()),
        other => ClaimValue::Json(other.to_string()),
    };
    Some((exp, value))
}

/// Signs the claims object made of an expiry and one field, given by its json text.
///
/// Calls `jsonwebtoken::encode` with the default (HS256) header, after reading the field's json
/// text with `serde_json::from_str`. The claims are that the token is the one `sealed_claims`
/// names; that one is made whenever the field's text reads back as a claim (signing with a
/// secret for HS256 does not fail); and that opening it with the same secret gives back the
/// expiry and that claim, for a field that jsonwebtoken does not read itself.
#[verifier::external_body]
pub(crate) fn seal_claims(exp: u64, field: &str, value_json: &str, secret: &str) -> (token: Option<String>)
    ensures
        token matches Some(t) ==> t@ == sealed_claims(exp, field@, value_json@, secret@),
        json_claim(value_json@) is Some ==> token is Some,
        token is Some && json_claim(value_json@) is Some && !registered_claim(field@) ==> signed_claim(
            token->Some_0@,
            secret@,
            field@,
        ) == Some((exp, json_claim(value_json@)->Some_0)),
{
    let value = serde_json::from_str::<serde_json::Value>(value_json).ok()?;
    let mut claims = serde_json::Map::new();
    claims.insert("exp".to_string(), serde_json::Value::from(exp));
    claims.insert(field.to_string(), value);
    let key = jsonwebtoken::EncodingKey::from_secret(secret.as_bytes());
    jsonwebtoken::encode(&jsonwebtoken::Header::default(), &claims, &key).ok()
}

/// Writes a text as a json string.
///
/// Calls `serde_json::to_string` on the text, which does not fail for a string. The claims are
/// that it writes the text `json_string_text` states, and that a json string reads back as the
/// text it holds.
#[verifier::external_body]
pub(crate) fn json_text(text: &str) -> (json: String)
    ensures
        json@ == json_string_text(text@),
        json_claim(json@) == Some(ClaimModel::Text(text@)),
{
    serde_json::to_string(text).unwrap_or_default()
}

/// The expiry that opening a token gave, zero when it did not open.
pub open spec fn claim_exp(opened: Option<(u64, ClaimModel)>) -> u64 {
    match opened {
        Some((exp, _)) => exp,
        None => 0,
    }
}

/// The text of a claim that holds a json string, when the expiry fits a `usize`.
pub open spec fn spec_opened_text(opened: Option<(u64, ClaimModel)>) -> Option<Seq<char>> {
    match opened {
        Some((exp, ClaimModel::Text(text))) => if exp <= usize::MAX {
            Some(text)
        } else {
            None
        },
        _ => None,
    }
}

/// The text of a claim that holds a json string, from what opening a token gave: none when the
/// token did not open, the claim is not a string, or the expiry does not fit a `usize`.
pub fn opened_text(opened: Option<(u64, ClaimValue)>) -> (text: Option<String>)
    ensures
        match text {
            Some(t) => spec_opened_text(opened_view(opened)) == Some(t@),
            None => spec_opened_text(opened_view(opened)) is None,
        },
{
    match opened {
        Some((exp, ClaimValue::Text(text))) => if exp as u128 <= usize::MAX as u128 {
            Some(text)
        } else {
            None
        },
        _ => None,
    }
}

/// The json text of a claim that holds a json value other than a string, when the expiry fits a
/// `u32`.
pub open spec fn spec_opened_payload(opened: Option<(u64, ClaimModel)>) -> Option<Seq<char>> {
    match opened {
        Some((exp, ClaimModel::Json(json))) => if exp <= u32::MAX {
            Some(json)
        } else {
            None
        },
        _ => None,
    }
}

/// The json text of a sealed payload, from what opening its token gave: none when the token did
/// not open, the payload is a json string, or the expiry does not fit a `u32`.
pub fn opened_payload(opened: Option<(u64, ClaimValue)>) -> (payload: Option<String>)
    ensures
        match payload {
            Some(p) => spec_opened_payload(opened_view(opened)) == Some(p@),
            None => spec_opened_payload(opened_view(opened)) is None,
        },
{
    match opened {
        Some((exp, ClaimValue::Json(json))) => if exp <= u32::MAX as u64 {
            Some(json)
        } else {
            None
        },
        _ => None,
    }
}

/// Whether a token opens, with the secret, to the given text in the named field.
pub open spec fn opens_to_text(token: Seq<char>, secret: Seq<char>, field: Seq<char>, text: Seq<char>) -> bool {
    spec_opened_text(signed_claim(token, secret, field)) == Some(text)
}

/// Whether a sealed job or render opens, with the secret, to the given json payload.
pub open spec fn opens_to_payload(token: Seq<char>, secret: Seq<char>, payload: Seq<char>) -> bool {
    spec_opened_payload(signed_claim(token, secret, "job"@)) == Some(payload)
}

/// Opens a stored access or refresh token with the secret, giving back the vendor's token it
/// holds; none when it does not open.
pub fn open_access_token(sealed: &str, secret: &str) -> (token: Option<String>)
    ensures
        token matches Some(t) ==> opens_to_text(sealed@, secret@, "token"@, t@),
{
    let field = String::from_str("token");
    proof {
        reveal_strlit("token");
    }
    opened_text(open_claims(sealed, secret, field.as_str()))
}

/// Reveals the field names the library seals, and that jsonwebtoken does not read them itself.
pub(crate) proof fn lemma_library_fields()
    ensures
        !registered_claim("token"@),
        !registered_claim("job"@),
        !registered_claim("oid"@),
{
    reveal_strlit("token");
    reveal_strlit("job");
    reveal_strlit("oid");
    reveal_strlit("exp");
    reveal_strlit("nbf");
    reveal_strlit("sub");
    reveal_strlit("iss");
    reveal_strlit("aud");
    assert("token"@ != "exp"@ && "token"@ != "nbf"@ && "token"@ != "sub"@ && "token"@ != "iss"@
        && "token"@ != "aud"@) by {
        assert("token"@.len() != "exp"@.len());
    }
    assert("job"@[0] != "exp"@[0] && "job"@[0] != "nbf"@[0] && "job"@[0] != "sub"@[0] && "job"@[0]
        != "iss"@[0] && "job"@[0] != "aud"@[0]);
    assert("oid"@[0] != "exp"@[0] && "oid"@[0] != "nbf"@[0] && "oid"@[0] != "sub"@[0] && "oid"@[1]
        != "iss"@[1] && "oid"@[0] != "aud"@[0]);
}

/// Seals a vendor's token for storage, with the given expiry; opening the sealed token with the
/// same secret, before that expiry, gives the vendor's token back.
pub fn seal_access_token(token: &str, exp: usize, secret: &str) -> (sealed: String)
    ensures
        sealed@ == sealed_claims(exp as u64, "token"@, json_string_text(token@), secret@),
        signed_claim(sealed@, secret@, "token"@) == Some((exp as u64, ClaimModel::Text(token@))),
        opens_to_text(sealed@, secret@, "token"@, token@),
{
    let field = String::from_str("token");
    proof {
        reveal_strlit("token");
        lemma_library_fields();
    }
    let json = json_text(token);
    match seal_claims(exp as u64, field.as_str(), json.as_str(), secret) {
        Some(sealed) => sealed,
        None => String::new(),
    }
}

/// Opens a sealed job or render with the secret, giving back the json text of what it holds;
/// none when it does not open.
pub fn open_sealed_payload(sealed: &str, secret: &str) -> (payload: Option<String>)
    ensures
        payload matches Some(p) ==> opens_to_payload(sealed@, secret@, p@),
{
    let field = String::from_str("job");
    proof {
        reveal_strlit("job");
    }
    opened_payload(open_claims(sealed, secret, field.as_str()))
}

/// The json text a sealed payload reads back as, when it is a json value other than a string.
pub open spec fn payload_claim(payload: Seq<char>) -> Option<Seq<char>> {
    match json_claim(payload) {
        Some(ClaimModel::Json(json)) => Some(json),
        _ => None,
    }
}

/// Whether a sealed payload opens with the secret to what the payload reads back as.
pub open spec fn payload_opens(sealed: Seq<char>, secret: Seq<char>, payload: Seq<char>) -> bool {
    match payload_claim(payload) {
        Some(json) => opens_to_payload(sealed, secret, json),
        None => true,
    }
}

/// Seals the json text of a job or render for its queue, with an expiry a day from now kept to a
/// `u32`; a text that serde_json reads is always sealed, and opening it with the same secret,
/// before that expiry, gives back the json text of the value it holds.
pub fn seal_payload(payload: &str, secret: &str) -> (sealed: Option<String>)
    ensures
        json_claim(payload@) is Some ==> sealed is Some,
        sealed matches Some(s) ==> exists|now: i64, fallback: i64|
            timestamp_in_range(now) && timestamp_in_range(fallback) && s@ == sealed_claims(
                (epoch_seconds(day_after(now, fallback)) as u32) as u64,
                "job"@,
                payload@,
                secret@,
            ),
        sealed matches Some(s) ==> payload_opens(s@, secret@, payload@),
{
    let field = String::from_str("job");
    proof {
        reveal_strlit("job");
        lemma_library_fields();
    }
    let seconds = seconds_a_day_from_now();
    let exp = #[verifier::truncate] (seconds as u32);
    seal_claims(exp as u64, field.as_str(), payload, secret)
}

} // verus!
