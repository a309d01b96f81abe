use vstd::prelude::*;

use std::str::Utf8Error;
use vstd::utf8::valid_utf8;

use crate::error::TdJsonError;
use crate::identity::TdLibBuildIdentity;

verus! {

/// `serde_json::Value`, the document tree a response is parsed into.
#[verifier::external_type_specification]
#[verifier::external_body]
pub struct ExJsonValue(serde_json::Value);

/// The name of the option that holds TDLib's semantic version.
pub const VERSION_OPTION: &'static str = "version";

/// The serialized `getOption` request for the version.
pub const VERSION_REQUEST: &'static str = "{\"@type\":\"getOption\",\"name\":\"version\"}";

/// The name of the option that holds TDLib's full upstream commit.
pub const COMMIT_HASH_OPTION: &'static str = "commit_hash";

/// The serialized `getOption` request for the commit.
pub const COMMIT_HASH_REQUEST: &'static str = "{\"@type\":\"getOption\",\"name\":\"commit_hash\"}";

/// Whether `serde_json::from_slice::<serde_json::Value>` accepts `document`.
pub uninterp spec fn json_parses(document: Seq<u8>) -> bool;

/// The string members of the top-level object of `document` as serde_json reads them:
/// each key whose member is a JSON string, with its text (for a repeated key, the last
/// one). Empty when the document is no object.
pub uninterp spec fn json_document_strings(document: Seq<u8>) -> Map<Seq<char>, Seq<char>>;

/// The string members held by a `serde_json::Value`: when it is an object, each key whose
/// member is a `Value::String`, with its text; empty for any other value.
pub uninterp spec fn json_value_strings(value: serde_json::Value) -> Map<Seq<char>, Seq<char>>;

/// The text of the string member `key` among `members`, if there is one.
pub open spec fn string_member_of(members: Map<Seq<char>, Seq<char>>, key: Seq<char>) -> Option<
    Seq<char>,
> {
    if members.contains_key(key) {
        Some(members[key])
    } else {
        None
    }
}

/// The text of the string member `key` of the top-level object of `document`.
pub open spec fn json_string_member(document: Seq<u8>, key: Seq<char>) -> Option<Seq<char>> {
    string_member_of(json_document_strings(document), key)
}

/// A parsed JSON document together with the bytes it was parsed from, which are its view;
/// the type invariant ties the parsed value to those bytes.
pub struct JsonDocument {
    value: serde_json::Value,
    source: Vec<u8>,
}

impl View for JsonDocument {
    type V = Seq<u8>;

    closed spec fn view(&self) -> Seq<u8> {
        self.source@
    }
}

impl JsonDocument {
    /// The string members of the parsed value are those of the source bytes.
    #[verifier::type_invariant]
    spec fn parsed_from_source(self) -> bool {
        json_value_strings(self.value) == json_document_strings(self.source@)
    }
}

/// Checks `bytes` with `std::str::from_utf8`, which accepts exactly the well-formed UTF-8
/// sequences; the text is not needed, only whether it is there.
#[verifier::external_body]
fn check_utf8(bytes: &[u8]) -> (checked: Result<(), Utf8Error>)
    ensures
        checked is Ok <==> valid_utf8(bytes@),
{
    std::str::from_utf8(bytes).map(|_| ())
}

/// Parses `document` with `serde_json::from_slice::<serde_json::Value>`: success is named
/// `json_parses`, and the string members of the value are those of the document.
#[verifier::external_body]
fn json_from_slice(document: &[u8]) -> (parsed: Result<serde_json::Value, serde_json::Error>)
    ensures
        parsed is Ok <==> json_parses(document@),
        parsed matches Ok(v) ==> json_value_strings(v) == json_document_strings(document@),
{
    serde_json::from_slice::<serde_json::Value>(document)
}

/// Looks up `key` with `serde_json::Value::get` and copies the member when it is a
/// `Value::String`.
#[verifier::external_body]
fn value_string_member(value: &serde_json::Value, key: &str) -> (member: Option<String>)
    ensures
        match member {
            Some(s) => json_value_strings(*value).contains_key(key@) && json_value_strings(
                *value,
            )[key@] == s@,
            None => !json_value_strings(*value).contains_key(key@),
        },
{
    match value.get(key) {
        Some(serde_json::Value::String(text)) => Some(text.clone()),
        _ => None,
    }
}

/// Parses `document` and keeps its bytes beside the parsed value.
fn parse_json_document(document: &[u8]) -> (parsed: Result<JsonDocument, serde_json::Error>)
    ensures
        parsed is Ok <==> json_parses(document@),
        parsed matches Ok(d) ==> d@ == document@,
{
    let value = json_from_slice(document)?;
    let source = vstd::slice::slice_to_vec(document);
    Ok(JsonDocument { value, source })
}

/// The string member `key` of a parsed document.
fn string_member(document: &JsonDocument, key: &str) -> (member: Option<String>)
    ensures
        match member {
            Some(s) => json_string_member(document@, key@) == Some(s@),
            None => json_string_member(document@, key@) is None,
        },
{
    proof {
        use_type_invariant(document);
    }
    value_string_member(&document.value, key)
}

/// The text of an option from the two string members of a `getOption` response, or the
/// refusal: the value is accepted only when `@type` is `optionValueString` and `value`
/// is a string.
pub open spec fn option_string(type_tag: Option<Seq<char>>, value: Option<Seq<char>>) -> Option<
    Seq<char>,
> {
    if type_tag == Some("optionValueString"@) {
        value
    } else {
        None
    }
}

/// Reads an option's text from the `@type` and `value` members of a `getOption`
/// response; any other shape is refused with `InvalidOptionResponse` for `option`.
pub fn option_string_from_members(
    option: &'static str,
    type_tag: Option<String>,
    value: Option<String>,
) -> (text: Result<String, TdJsonError>)
    ensures
        match option_string(
            match type_tag {
                Some(t) => Some(t@),
                None => None,
            },
            match value {
                Some(v) => Some(v@),
                None => None,
            },
        ) {
            Some(s) => text matches Ok(t) && t@ == s,
            None => text matches Err(TdJsonError::InvalidOptionResponse { option: o }) && o
                == option,
        },
        match type_tag {
            Some(t) => if t@ == "optionValueString"@ {
                match value {
                    Some(v) => text matches Ok(r) && r@ == v@,
                    None => text is Err,
                }
            } else {
                text is Err
            },
            None => text is Err,
        },
{
    let expected = "optionValueString".to_owned();
    match type_tag {
        Some(t) => {
            if t == expected {
                match value {
                    Some(v) => Ok(v),
                    None => Err(TdJsonError::InvalidOptionResponse { option }),
                }
            } else {
                Err(TdJsonError::InvalidOptionResponse { option })
            }
        },
        None => Err(TdJsonError::InvalidOptionResponse { option }),
    }
}

/// The text of an option that a `getOption` response carries: the bytes must be UTF-8,
/// then JSON, then an `optionValueString` with a string value.
pub open spec fn string_option_text(response: Seq<u8>) -> Option<Seq<char>> {
    if valid_utf8(response) && json_parses(response) {
        option_string(json_string_member(response, "@type"@), json_string_member(response, "value"@))
    } else {
        None
    }
}

/// Whether `e` is the error for a `getOption` response of `option` that carries no text:
/// `InvalidUtf8` for bytes that are not UTF-8, else `InvalidJson` for bytes that are not
/// JSON, else `InvalidOptionResponse` for `option`.
pub open spec fn is_option_error(option: &'static str, response: Seq<u8>, e: TdJsonError) -> bool {
    if !valid_utf8(response) {
        e is InvalidUtf8
    } else if !json_parses(response) {
        e is InvalidJson
    } else {
        e matches TdJsonError::InvalidOptionResponse { option: o } && o == option
    }
}

/// Reads the text of `option` from the bytes TDLib returned for its `getOption` request:
/// the bytes must be UTF-8, then JSON, then an `optionValueString` with a string value.
pub fn string_option_from_response(option: &'static str, response: &[u8]) -> (text: Result<
    String,
    TdJsonError,
>)
    ensures
        match string_option_text(response@) {
            Some(s) => text matches Ok(t) && t@ == s,
            None => text matches Err(e) && is_option_error(option, response@, e),
        },
        valid_utf8(response@) && json_parses(response@) && json_string_member(
            response@,
            "@type"@,
        ) == Some("optionValueString"@) ==> match json_string_member(response@, "value"@) {
            Some(v) => text matches Ok(t) && t@ == v,
            None => text is Err,
        },
{
    if let Err(e) = check_utf8(response) {
        return Err(TdJsonError::InvalidUtf8(e));
    }
    let document = match parse_json_document(response) {
        Ok(d) => d,
        Err(e) => return Err(TdJsonError::InvalidJson(e)),
    };
    let type_tag = string_member(&document, "@type");
    let value = string_member(&document, "value");
    option_string_from_members(option, type_tag, value)
}

/// The `getOption` queries that make up a build identity, in the order they are asked; the
/// commit query carries the version already read.
pub enum IdentityQuery {
    Version,
    CommitHash { version: String },
}

/// What follows an answered identity query: the next query, or the identity.
pub enum IdentityStep {
    Ask(IdentityQuery),
    Done(TdLibBuildIdentity),
}

/// The option name and the serialized request of a query.
pub fn identity_request(query: &IdentityQuery) -> (request: (&'static str, &'static str))
    ensures
        query is Version ==> request == (VERSION_OPTION, VERSION_REQUEST),
        query is CommitHash ==> request == (COMMIT_HASH_OPTION, COMMIT_HASH_REQUEST),
{
    match query {
        IdentityQuery::Version => (VERSION_OPTION, VERSION_REQUEST),
        IdentityQuery::CommitHash { .. } => (COMMIT_HASH_OPTION, COMMIT_HASH_REQUEST),
    }
}

/// Takes TDLib's answer to `query`: the version is asked first, then the commit; the
/// first answer that carries no text stops the sequence with its error; the identity
/// holds the version text first and the commit text second.
pub fn identity_step(query: IdentityQuery, response: &[u8]) -> (next: Result<
    IdentityStep,
    TdJsonError,
>)
    ensures
        match query {
            IdentityQuery::Version => match string_option_text(response@) {
                Some(v) => next matches Ok(IdentityStep::Ask(IdentityQuery::CommitHash { version }))
                    && version@ == v,
                None => next matches Err(e) && is_option_error(VERSION_OPTION, response@, e),
            },
            IdentityQuery::CommitHash { version } => match string_option_text(response@) {
                Some(c) => next matches Ok(IdentityStep::Done(identity)) && identity@ == (
                    version@,
                    c,
                ),
                None => next matches Err(e) && is_option_error(COMMIT_HASH_OPTION, response@, e),
            },
        },
        valid_utf8(response@) && json_parses(response@) && json_string_member(
            response@,
            "@type"@,
        ) == Some("optionValueString"@) ==> match json_string_member(response@, "value"@) {
            Some(text) => match query {
                IdentityQuery::Version => next matches Ok(
                    IdentityStep::Ask(IdentityQuery::CommitHash { version }),
                ) && version@ == text,
                IdentityQuery::CommitHash { version } => next matches Ok(
                    IdentityStep::Done(identity),
                ) && identity@ == (version@, text),
            },
            None => next is Err,
        },
{
    let (option, _) = identity_request(&query);
    let text = string_option_from_response(option, response)?;
    match query {
        IdentityQuery::Version => Ok(IdentityStep::Ask(IdentityQuery::CommitHash { version: text })),
        IdentityQuery::CommitHash { version } => Ok(
            IdentityStep::Done(TdLibBuildIdentity::new(version, text)),
        ),
    }
}

} // verus!
