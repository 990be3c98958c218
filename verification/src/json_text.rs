//! Reading one value out of a JSON text.
use vstd::prelude::*;

verus! {

/// What a JSON text holds at a JSON pointer, as far as this library reads it.
#[derive(Debug, Clone, PartialEq, Eq)]
pub enum JsonLookup {
    /// The text is not valid JSON.
    Invalid,
    /// Nothing is found at the pointer.
    Absent,
    /// `null` is found at the pointer.
    Null,
    /// A string is found at the pointer.
    Str(String),
    /// A boolean, a number, an array or an object is found at the pointer.
    Other,
}

/// The mathematical form of a `JsonLookup`.
pub enum JsonLookupView {
    Invalid,
    Absent,
    Null,
    Str(Seq<char>),
    Other,
}

impl View for JsonLookup {
    type V = JsonLookupView;

    open spec fn view(&self) -> JsonLookupView {
        match self {
            JsonLookup::Invalid => JsonLookupView::Invalid,
            JsonLookup::Absent => JsonLookupView::Absent,
            JsonLookup::Null => JsonLookupView::Null,
            JsonLookup::Str(s) => JsonLookupView::Str(s@),
            JsonLookup::Other => JsonLookupView::Other,
        }
    }
}

/// What `serde_json::from_str::<serde_json::Value>` followed by
/// `Value::pointer` gives for a text and a pointer.
pub uninterp spec fn json_lookup(text: Seq<char>, pointer: Seq<char>) -> JsonLookupView;

/// `serde_json::from_str::<serde_json::Value>` on `text`, then
/// `Value::pointer(pointer)` on the parsed value (RFC 6901: object members by
/// name, array elements by index). Its result is only named: it depends on the
/// text and the pointer alone.
#[verifier::external_body]
pub(crate) fn lookup_json(text: &str, pointer: &str) -> (r: JsonLookup)
    ensures
        r@ == json_lookup(text@, pointer@),
{
    match serde_json::from_str::<serde_json::Value>(text) {
        Err(_) => JsonLookup::Invalid,
        Ok(v) => match v.pointer(pointer) {
            None => JsonLookup::Absent,
            Some(serde_json::Value::Null) => JsonLookup::Null,
            Some(serde_json::Value::String(s)) => JsonLookup::Str(s.clone()),
            Some(_) => JsonLookup::Other,
        },
    }
}

} // verus!
