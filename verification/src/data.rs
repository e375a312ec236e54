//! The response envelope: a minimally-typed view of a JSON body returned
//! by the service.
//!
//! An envelope records the optional `id`, `image_id` and `path` fields of
//! the body, plus the raw text for display. A missing field is `None`,
//! never an error: callers decide whether a missing field is fatal for
//! their operation.

use vstd::prelude::*;
use vstd::string::*;

use crate::error::AssCliError;
use crate::error::AssCliErrorKind;

verus! {

/// The view of an optional string.
pub open spec fn opt_string_view(o: Option<String>) -> Option<Seq<char>> {
    match o {
        Some(s) => Some(s@),
        None => None,
    }
}

/// What reading the envelope fields from JSON text yields: `None` when
/// the text is not valid JSON; otherwise the `id` and `image_id` fields
/// read as unsigned integers and the `path` field read as a string, each
/// `None` when absent or of another type.
pub uninterp spec fn json_envelope_of(text: Seq<char>) -> Option<
    (Option<u64>, Option<u64>, Option<Seq<char>>),
>;

/// Relies on `serde_json`: `from_str` to a `Value`, then the `id`,
/// `image_id` and `path` fields read through `as_u64` and `as_str`. The
/// result is a function of the text alone.
#[verifier::external_body]
fn parse_envelope_json(text: &str) -> (r: Option<(Option<u64>, Option<u64>, Option<String>)>)
    ensures
        r is Some <==> json_envelope_of(text@) is Some,
        r matches Some(t) ==> json_envelope_of(text@) == Some((t.0, t.1, opt_string_view(t.2))),
{
    let v: serde_json::Value = serde_json::from_str(text).ok()?;
    let id = v.get("id").and_then(serde_json::Value::as_u64);
    let image_id = v.get("image_id").and_then(serde_json::Value::as_u64);
    let path = v.get("path").and_then(serde_json::Value::as_str).map(ToString::to_string);
    Some((id, image_id, path))
}

/// What splitting a JSON array body yields: `None` when the text is not
/// a JSON array; otherwise the rendering of each element, in order.
pub uninterp spec fn json_array_of(text: Seq<char>) -> Option<Seq<Seq<char>>>;

/// Relies on `serde_json`: `from_str` to a `Value`, `as_array`, and the
/// rendering of each element back to text. The result is a function of
/// the text alone.
#[verifier::external_body]
fn split_json_array(text: &str) -> (r: Option<Vec<String>>)
    ensures
        r is Some <==> json_array_of(text@) is Some,
        r matches Some(v) ==> json_array_of(text@) == Some(v.deep_view()),
{
    let v: serde_json::Value = serde_json::from_str(text).ok()?;
    let arr = v.as_array()?;
    Some(arr.iter().map(ToString::to_string).collect())
}

/// A parsed response body: the envelope fields and the raw text.
#[derive(Debug)]
pub struct AssData {
    /// The `id` field of the body, when present as an unsigned integer.
    pub id: Option<u64>,
    /// The `image_id` field of the body, when present as an unsigned integer.
    pub image_id: Option<u64>,
    /// The `path` field of the body, when present as a string.
    pub path: Option<String>,
    /// The body text the envelope was read from.
    pub raw: String,
}

impl AssData {
    /// This envelope holds exactly the fields of `text`, and `text` itself.
    pub open spec fn matches_json(self, text: Seq<char>) -> bool {
        &&& json_envelope_of(text) == Some((self.id, self.image_id, opt_string_view(self.path)))
        &&& self.raw@ == text
    }

    /// Reads the envelope from a body text. Succeeds exactly when the
    /// text is valid JSON; a missing field is `None`, never an error.
    pub fn from_json(text: &str) -> (r: Result<AssData, AssCliError>)
        ensures
            match r {
                Ok(d) => d.matches_json(text@),
                Err(e) => json_envelope_of(text@) is None && e.kind == AssCliErrorKind::JsonError,
            },
    {
        match parse_envelope_json(text) {
            Some((id, image_id, path)) => Ok(
                AssData { id, image_id, path, raw: String::from_str(text) },
            ),
            None => Err(AssCliError::json_error()),
        }
    }

    /// The `id` field of the body, if any.
    pub fn get_id(&self) -> (r: Option<u64>)
        ensures
            r == self.id,
    {
        self.id
    }

    /// The `image_id` field of the body, if any.
    pub fn get_image_id(&self) -> (r: Option<u64>)
        ensures
            r == self.image_id,
    {
        self.image_id
    }

    /// The `path` field of the body, if any.
    pub fn get_path(&self) -> (r: Option<&String>)
        ensures
            match r {
                Some(p) => self.path == Some(*p),
                None => self.path is None,
            },
    {
        self.path.as_ref()
    }

    /// The raw body text this envelope was read from.
    pub fn raw_json(&self) -> (r: &String)
        ensures
            r == &self.raw,
    {
        &self.raw
    }
}

/// Splits a JSON array body into the renderings of its elements.
/// Succeeds exactly when the text is a JSON array.
pub fn json_array_items(text: &str) -> (r: Result<Vec<String>, AssCliError>)
    ensures
        match r {
            Ok(v) => json_array_of(text@) == Some(v.deep_view()),
            Err(e) => json_array_of(text@) is None && e.kind == AssCliErrorKind::JsonError,
        },
{
    match split_json_array(text) {
        Some(v) => Ok(v),
        None => Err(AssCliError::json_error()),
    }
}

} // verus!
