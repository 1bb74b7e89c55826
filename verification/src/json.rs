use vstd::prelude::*;

use serde_json::Error as JsonError;
use serde_json::Value as JsonValue;

verus! {

/// The model of a decoded JSON document, as far as the language reads one:
/// null, a boolean, a number, a string, an array of documents, or an
/// object.  A number is modelled by the 64-bit integer it denotes where it
/// denotes one (`Num(Some(i))`), and by `Num(None)` otherwise (a fraction,
/// or an integer outside the range).  An object is opaque: no program
/// fragment is an object, so nothing reads further into one.
pub enum JsonView {
    Null,
    Bool(bool),
    Num(Option<i64>),
    Str(Seq<char>),
    Arr(Seq<JsonView>),
    Obj,
}

#[verifier::external_type_specification]
#[verifier::external_body]
pub struct ExJsonValue(JsonValue);

#[verifier::external_type_specification]
#[verifier::external_body]
pub struct ExJsonError(JsonError);

/// The model of a decoded `JsonValue`.
pub uninterp spec fn json_view(v: JsonValue) -> JsonView;

/// The models of a sequence of decoded documents, element by element.
pub open spec fn views_of(s: Seq<JsonValue>) -> Seq<JsonView> {
    s.map_values(|e: JsonValue| json_view(e))
}

/// The document that `serde_json::from_str` decodes a given text to, where
/// it decodes the text at all.
pub uninterp spec fn json_of(s: Seq<char>) -> Option<JsonView>;

/// Relies on serde_json::from_str: decodes a JSON text into a
/// `JsonValue`, and fails exactly on text that is not JSON.
#[verifier::external_body]
pub(crate) fn decode_json(s: &str) -> (r: Result<JsonValue, JsonError>)
    ensures
        r matches Ok(v) ==> json_of(s@) == Some(json_view(v)),
        r is Err ==> json_of(s@) is None,
{
    serde_json::from_str::<JsonValue>(s)
}

/// Relies on JsonValue::is_null: whether the document is null.
pub assume_specification[ JsonValue::is_null ](v: &JsonValue) -> (r: bool)
    ensures
        r == (json_view(*v) is Null),
;

/// Relies on JsonValue::is_number: whether the document is a number.
pub assume_specification[ JsonValue::is_number ](v: &JsonValue) -> (r: bool)
    ensures
        r == (json_view(*v) is Num),
;

/// Relies on JsonValue::as_i64: the number as an i64, for a number
/// that is an integer in the i64 range; nothing otherwise.
pub assume_specification[ JsonValue::as_i64 ](v: &JsonValue) -> (r: Option<i64>)
    ensures
        r == (match json_view(*v) {
            JsonView::Num(n) => n,
            _ => Option::<i64>::None,
        }),
;

/// Relies on JsonValue::as_bool: the boolean a boolean document
/// holds; nothing otherwise.
pub assume_specification[ JsonValue::as_bool ](v: &JsonValue) -> (r: Option<bool>)
    ensures
        r == (match json_view(*v) {
            JsonView::Bool(b) => Some(b),
            _ => Option::<bool>::None,
        }),
;

/// Relies on JsonValue::as_str: the text a string document holds;
/// nothing otherwise.
pub assume_specification<'a>[ JsonValue::as_str ](v: &'a JsonValue) -> (r: Option<
    &'a str,
>)
    ensures
        match r {
            Some(s) => json_view(*v) matches JsonView::Str(t) && t == s@,
            None => !(json_view(*v) is Str),
        },
;

/// Relies on JsonValue::as_array: the elements of an array
/// document; nothing otherwise.
pub assume_specification<'a>[ JsonValue::as_array ](v: &'a JsonValue) -> (r:
    Option<&'a Vec<JsonValue>>)
    ensures
        match r {
            Some(a) => json_view(*v) matches JsonView::Arr(elems) && elems == views_of(a@),
            None => !(json_view(*v) is Arr),
        },
;

/// Relies on str's equality: two string slices are equal exactly when
/// their characters are.
pub assume_specification[ <str as PartialEq<str>>::eq ](a: &str, b: &str) -> (r: bool)
    ensures
        r == (a@ == b@),
;

} // verus!
