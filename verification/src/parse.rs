//! From the JSON text of a response to a `Response`.
//!
//! A response is an object with a member `candidates`, an array. A candidate
//! has a member `content`, which has a member `parts`, an array. A part is
//! an object; its members `text`, a string, and `inlineData`, with the
//! strings `mimeType` and `data`, may each be missing or `null`. Members
//! that are not named here are passed over.

use vstd::prelude::*;
use vstd::utf8::encode_utf8;
use crate::document::{
    as_array,
    as_str,
    elements,
    parse_bytes,
    get,
    held,
    is_null,
    is_object,
    member,
    parsed,
    string_value,
};
use crate::response::{
    Candidate,
    CandidateContent,
    InlineData,
    InlineDataView,
    PartView,
    Response,
    ResponsePart,
};

verus! {

/// Why a text gave no response.
#[derive(Debug)]
pub enum DeserializationError {
    /// The text is not JSON.
    InvalidJson(serde_json::Error),
    /// The text is JSON of another shape than that of a response.
    UnexpectedShape,
}

impl DeserializationError {
    /// Returns the text that reports the error: what the parser says of
    /// text that is not JSON, and a fixed sentence for JSON of another
    /// shape.
    pub fn message(&self) -> (text: String)
        ensures
            match *self {
                DeserializationError::InvalidJson(e) => vstd::string::to_string_from_display_ensures::<
                    serde_json::Error,
                >(&e, text),
                DeserializationError::UnexpectedShape => text@
                    == "response does not match the expected shape"@,
            },
    {
        match self {
            DeserializationError::InvalidJson(e) => e.to_string(),
            DeserializationError::UnexpectedShape => {
                "response does not match the expected shape".to_string()
            },
        }
    }
}

/// A member that may be left out: one that is missing or `null` counts as
/// not there.
pub open spec fn present(found: Option<serde_json::Value>) -> Option<serde_json::Value> {
    match found {
        Some(v) => if held(v) is Null {
            None
        } else {
            Some(v)
        },
        None => None,
    }
}

/// The text of a part: `Some(None)` where it has none, `None` where its
/// member `text` is no string.
pub open spec fn text_of(part: serde_json::Value) -> Option<Option<Seq<char>>> {
    match present(member(part, "text"@)) {
        None => Some(None),
        Some(t) => match string_value(t) {
            Some(s) => Some(Some(s)),
            None => None,
        },
    }
}

/// The inline data that `value` holds, or `None` where one of the strings
/// `mimeType` and `data` is not there.
pub open spec fn inline_data_of(value: serde_json::Value) -> Option<InlineDataView> {
    match (member(value, "mimeType"@), member(value, "data"@)) {
        (Some(m), Some(d)) => match (string_value(m), string_value(d)) {
            (Some(mime_type), Some(data)) => Some(InlineDataView { mime_type, data }),
            _ => None,
        },
        _ => None,
    }
}

/// The inline data of a part: `Some(None)` where it has none, `None` where
/// its member `inlineData` holds no inline data.
pub open spec fn optional_inline_data_of(part: serde_json::Value) -> Option<Option<InlineDataView>> {
    match present(member(part, "inlineData"@)) {
        None => Some(None),
        Some(d) => match inline_data_of(d) {
            Some(data) => Some(Some(data)),
            None => None,
        },
    }
}

/// The part that `value` holds, or `None` where `value` is no object or one
/// of its two members is not as it should be.
pub open spec fn part_of(value: serde_json::Value) -> Option<PartView> {
    if held(value) is Object {
        match (text_of(value), optional_inline_data_of(value)) {
            (Some(text), Some(inline_data)) => Some(PartView { text, inline_data }),
            _ => None,
        }
    } else {
        None
    }
}

/// The parts that `items` hold, or `None` where one of them holds no part.
pub open spec fn parts_of(items: Seq<serde_json::Value>) -> Option<Seq<PartView>> {
    if forall|i: int| 0 <= i < items.len() ==> part_of(#[trigger] items[i]) is Some {
        Some(items.map_values(|v: serde_json::Value| part_of(v).unwrap()))
    } else {
        None
    }
}

/// The parts of the candidate that `value` holds: those of the array
/// `parts` in its member `content`.
pub open spec fn candidate_of(value: serde_json::Value) -> Option<Seq<PartView>> {
    match member(value, "content"@) {
        Some(content) => match member(content, "parts"@) {
            Some(parts) => match elements(parts) {
                Some(items) => parts_of(items),
                None => None,
            },
            None => None,
        },
        None => None,
    }
}

/// The candidates that `items` hold, or `None` where one of them holds no
/// candidate.
pub open spec fn candidates_of(items: Seq<serde_json::Value>) -> Option<Seq<Seq<PartView>>> {
    if forall|i: int| 0 <= i < items.len() ==> candidate_of(#[trigger] items[i]) is Some {
        Some(items.map_values(|v: serde_json::Value| candidate_of(v).unwrap()))
    } else {
        None
    }
}

/// The response that `value` holds: the candidates of its array
/// `candidates`.
pub open spec fn response_of(value: serde_json::Value) -> Option<Seq<Seq<PartView>>> {
    match member(value, "candidates"@) {
        Some(candidates) => match elements(candidates) {
            Some(items) => candidates_of(items),
            None => None,
        },
        None => None,
    }
}

/// The response that `bytes` hold, or `None` where they hold none.
pub open spec fn response_in(bytes: Seq<u8>) -> Option<Seq<Seq<PartView>>> {
    match parsed(bytes) {
        Some(value) => response_of(value),
        None => None,
    }
}

/// Returns the member under `key` unless it is missing or `null`.
fn get_present<'a>(value: &'a serde_json::Value, key: &str) -> (found: Option<&'a serde_json::Value>)
    ensures
        match found {
            Some(v) => present(member(*value, key@)) == Some(*v),
            None => present(member(*value, key@)) is None,
        },
{
    match get(value, key) {
        Some(v) => if is_null(v) {
            None
        } else {
            Some(v)
        },
        None => None,
    }
}

/// Returns the string under `key`.
fn get_string(value: &serde_json::Value, key: &str) -> (text: Option<String>)
    ensures
        match text {
            Some(t) => member(*value, key@) matches Some(m) && string_value(m) == Some(t@),
            None => member(*value, key@) matches Some(m) ==> string_value(m) is None,
        },
{
    match get(value, key) {
        Some(m) => match as_str(m) {
            Some(s) => Some(s.to_string()),
            None => None,
        },
        None => None,
    }
}

/// Returns the text of a part.
fn read_text(part: &serde_json::Value) -> (text: Result<Option<String>, DeserializationError>)
    ensures
        match text {
            Ok(Some(t)) => text_of(*part) == Some(Some(t@)),
            Ok(None) => text_of(*part) == Some(None::<Seq<char>>),
            Err(e) => e is UnexpectedShape && text_of(*part) is None,
        },
{
    match get_present(part, "text") {
        None => Ok(None),
        Some(t) => match as_str(t) {
            Some(s) => Ok(Some(s.to_string())),
            None => Err(DeserializationError::UnexpectedShape),
        },
    }
}

/// Returns the inline data that `value` holds.
fn read_inline_data(value: &serde_json::Value) -> (data: Result<InlineData, DeserializationError>)
    ensures
        match data {
            Ok(d) => inline_data_of(*value) == Some(d@),
            Err(e) => e is UnexpectedShape && inline_data_of(*value) is None,
        },
{
    match get_string(value, "mimeType") {
        Some(mime_type) => match get_string(value, "data") {
            Some(data) => Ok(InlineData { mime_type, data }),
            None => Err(DeserializationError::UnexpectedShape),
        },
        None => Err(DeserializationError::UnexpectedShape),
    }
}

/// Returns the inline data of a part.
fn read_optional_inline_data(
    part: &serde_json::Value,
) -> (data: Result<Option<InlineData>, DeserializationError>)
    ensures
        match data {
            Ok(Some(d)) => optional_inline_data_of(*part) == Some(Some(d@)),
            Ok(None) => optional_inline_data_of(*part) == Some(None::<InlineDataView>),
            Err(e) => e is UnexpectedShape && optional_inline_data_of(*part) is None,
        },
{
    match get_present(part, "inlineData") {
        None => Ok(None),
        Some(d) => match read_inline_data(d) {
            Ok(data) => Ok(Some(data)),
            Err(e) => Err(e),
        },
    }
}

/// Returns the part that `value` holds.
fn read_part(value: &serde_json::Value) -> (part: Result<ResponsePart, DeserializationError>)
    ensures
        match part {
            Ok(p) => part_of(*value) == Some(p@),
            Err(e) => e is UnexpectedShape && part_of(*value) is None,
        },
{
    if !is_object(value) {
        return Err(DeserializationError::UnexpectedShape);
    }
    match read_text(value) {
        Ok(text) => match read_optional_inline_data(value) {
            Ok(inline_data) => Ok(ResponsePart { text, inline_data }),
            Err(e) => Err(e),
        },
        Err(e) => Err(e),
    }
}

/// Returns the parts that `items` hold.
fn read_parts(
    items: &Vec<serde_json::Value>,
) -> (parts: Result<Vec<ResponsePart>, DeserializationError>)
    ensures
        match parts {
            Ok(p) => parts_of(items@) == Some(p@.map_values(|x: ResponsePart| x@)),
            Err(e) => e is UnexpectedShape && parts_of(items@) is None,
        },
{
    let mut parts: Vec<ResponsePart> = Vec::new();
    let mut i: usize = 0;
    while i < items.len()
        invariant
            i <= items.len(),
            parts@.len() == i,
            forall|k: int| 0 <= k < i ==> part_of(#[trigger] items@[k]) == Some(parts@[k]@),
        decreases items.len() - i,
    {
        match read_part(&items[i]) {
            Ok(part) => parts.push(part),
            Err(e) => {
                return Err(e);
            },
        }
        i += 1;
    }
    proof {
        assert(parts_of(items@).unwrap() =~= parts@.map_values(|x: ResponsePart| x@));
    }
    Ok(parts)
}

/// Returns the candidate that `value` holds.
fn read_candidate(value: &serde_json::Value) -> (candidate: Result<Candidate, DeserializationError>)
    ensures
        match candidate {
            Ok(c) => candidate_of(*value) == Some(c@),
            Err(e) => e is UnexpectedShape && candidate_of(*value) is None,
        },
{
    let content = match get(value, "content") {
        Some(content) => content,
        None => {
            return Err(DeserializationError::UnexpectedShape);
        },
    };
    let parts = match get(content, "parts") {
        Some(parts) => parts,
        None => {
            return Err(DeserializationError::UnexpectedShape);
        },
    };
    let items = match as_array(parts) {
        Some(items) => items,
        None => {
            return Err(DeserializationError::UnexpectedShape);
        },
    };
    match read_parts(items) {
        Ok(parts) => Ok(Candidate { content: CandidateContent { parts } }),
        Err(e) => Err(e),
    }
}

/// Returns the candidates that `items` hold.
fn read_candidates(
    items: &Vec<serde_json::Value>,
) -> (candidates: Result<Vec<Candidate>, DeserializationError>)
    ensures
        match candidates {
            Ok(c) => candidates_of(items@) == Some(c@.map_values(|x: Candidate| x@)),
            Err(e) => e is UnexpectedShape && candidates_of(items@) is None,
        },
{
    let mut candidates: Vec<Candidate> = Vec::new();
    let mut i: usize = 0;
    while i < items.len()
        invariant
            i <= items.len(),
            candidates@.len() == i,
            forall|k: int|
                0 <= k < i ==> candidate_of(#[trigger] items@[k]) == Some(candidates@[k]@),
        decreases items.len() - i,
    {
        match read_candidate(&items[i]) {
            Ok(candidate) => candidates.push(candidate),
            Err(e) => {
                return Err(e);
            },
        }
        i += 1;
    }
    proof {
        assert(candidates_of(items@).unwrap() =~= candidates@.map_values(|x: Candidate| x@));
    }
    Ok(candidates)
}

impl Response {
    /// Returns the response that a parsed document holds, or the error for
    /// a document of another shape.
    pub fn from_value(value: &serde_json::Value) -> (response: Result<Response, DeserializationError>)
        ensures
            match response {
                Ok(r) => response_of(*value) == Some(r@),
                Err(e) => e is UnexpectedShape && response_of(*value) is None,
            },
    {
        let candidates = match get(value, "candidates") {
            Some(candidates) => candidates,
            None => {
                return Err(DeserializationError::UnexpectedShape);
            },
        };
        let items = match as_array(candidates) {
            Some(items) => items,
            None => {
                return Err(DeserializationError::UnexpectedShape);
            },
        };
        match read_candidates(items) {
            Ok(candidates) => Ok(Response { candidates }),
            Err(e) => Err(e),
        }
    }

    /// Returns the response that `bytes` hold. Bytes that are not JSON give
    /// `InvalidJson`, JSON of another shape gives `UnexpectedShape`.
    pub fn from_slice(bytes: &[u8]) -> (response: Result<Response, DeserializationError>)
        ensures
            match response {
                Ok(r) => response_in(bytes@) == Some(r@),
                Err(DeserializationError::InvalidJson(_)) => parsed(bytes@) is None,
                Err(DeserializationError::UnexpectedShape) => parsed(bytes@) is Some && response_in(
                    bytes@,
                ) is None,
            },
    {
        match parse_bytes(bytes) {
            Ok(value) => Response::from_value(&value),
            Err(e) => Err(DeserializationError::InvalidJson(e)),
        }
    }

    /// Returns the response that `text` holds: that of its bytes in UTF-8.
    pub fn from_json(text: &str) -> (response: Result<Response, DeserializationError>)
        ensures
            match response {
                Ok(r) => response_in(encode_utf8(text@)) == Some(r@),
                Err(DeserializationError::InvalidJson(_)) => parsed(encode_utf8(text@)) is None,
                Err(DeserializationError::UnexpectedShape) => parsed(encode_utf8(text@)) is Some
                    && response_in(encode_utf8(text@)) is None,
            },
    {
        Response::from_slice(text.as_bytes())
    }
}

} // verus!
