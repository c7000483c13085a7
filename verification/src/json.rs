//! The boundary to the JSON parser.
//!
//! Nothing in this crate reads JSON itself. A text is handed to `serde_json`, and what
//! comes back is turned into plain values: the members of the top-level object, each
//! value written out again as compact JSON text. The items below that Verus takes on
//! trust are marked as such; everything else in the crate is proved from them.

use vstd::prelude::*;

verus! {

/// Trusted declaration of the parser's error type, `serde_json::Error`.
/// A value of it is carried from the parser to the loader; nothing is known of its inside.
#[verifier::external_type_specification]
#[verifier::external_body]
pub struct ExJsonError(serde_json::Error);

/// One member of a JSON object: its name, and its value as compact JSON text.
///
/// A string value keeps its quotation marks and escapes, so the member
/// `"a": "x"` has the value text `"x"` (three characters); a number, a list or a
/// nested object is written as the serializer writes it.
#[derive(Debug, PartialEq, Eq)]
pub struct Member {
    pub name: String,
    pub value: String,
}

impl View for Member {
    type V = (Seq<char>, Seq<char>);

    open spec fn view(&self) -> (Seq<char>, Seq<char>) {
        (self.name@, self.value@)
    }
}

/// What the loader reads of a parsed JSON document.
#[derive(Debug, PartialEq, Eq)]
pub enum Document {
    /// The top-level value is an object, with these members in the parser's order.
    Object(Vec<Member>),
    /// The top-level value is anything else: null, a boolean, a number, a string or a list.
    Other,
}

/// How a text reads as JSON: the mathematical counterpart of a parse result.
pub enum Reading {
    /// The text is not one JSON value.
    Malformed,
    /// The text is a JSON value that is not an object.
    NotObject,
    /// The text is a JSON object with these members, as (name, value text) pairs.
    Object(Seq<(Seq<char>, Seq<char>)>),
}

/// The members of a list, each by its view.
pub open spec fn member_views(members: Seq<Member>) -> Seq<(Seq<char>, Seq<char>)> {
    members.map_values(|m: Member| m@)
}

/// The reading that a parse result stands for.
pub open spec fn reading_of(parsed: Result<Document, serde_json::Error>) -> Reading {
    match parsed {
        Ok(Document::Object(members)) => Reading::Object(member_views(members@)),
        Ok(Document::Other) => Reading::NotObject,
        Err(_) => Reading::Malformed,
    }
}

/// Trusted name for what `serde_json` makes of a text: whether `serde_json::from_slice`
/// accepts it as a `serde_json::Value`, whether that value is an object, and if so its
/// members in the order in which the object hands them out, each value written by
/// `Value`'s `Display`. Nothing is stated of it but that it depends on the bytes alone.
pub uninterp spec fn json_reading(bytes: Seq<u8>) -> Reading;

/// Trusted wrapper round `serde_json::from_slice::<serde_json::Value>`.
///
/// The contract claims that the outcome is the reading of the bytes: the parser's
/// verdict and the parsed members are a function of the text and of nothing else.
/// The body turns the parsed value into plain values and decides nothing.
#[verifier::external_body]
pub(crate) fn parse_document(bytes: &[u8]) -> (parsed: Result<Document, serde_json::Error>)
    ensures
        reading_of(parsed) == json_reading(bytes@),
{
    let value: serde_json::Value = serde_json::from_slice(bytes)?;
    Ok(match value {
        serde_json::Value::Null => Document::Other,
        serde_json::Value::Bool(_) => Document::Other,
        serde_json::Value::Number(_) => Document::Other,
        serde_json::Value::String(_) => Document::Other,
        serde_json::Value::Array(_) => Document::Other,
        serde_json::Value::Object(object) => Document::Object(
            object.iter().map(|(name, value)| Member { name: name.clone(), value: value.to_string() }).collect(),
        ),
    })
}

} // verus!
