//! JSON documents, and what they hold at the places that are asked for.

use serde_json::Value;
use vstd::prelude::*;

verus! {

/// A JSON document.
#[verifier::external_type_specification]
#[verifier::external_body]
pub struct ExValue(Value);

/// Why a text is no JSON document.
#[verifier::external_type_specification]
#[verifier::external_body]
pub struct ExJsonError(serde_json::Error);

/// What a document holds, by JSON pointer.
pub struct Leaves {
    /// Where it has anything at all.
    pub present: Set<Seq<char>>,
    /// Where it has a text, and which.
    pub texts: Map<Seq<char>, Seq<char>>,
    /// Where it has a whole number that fits, and which.
    pub ints: Map<Seq<char>, i64>,
    /// Where it has a truth value, and which.
    pub flags: Map<Seq<char>, bool>,
}

/// What the document `v` holds.
pub uninterp spec fn leaves(v: Value) -> Leaves;

/// What the document that `text` spells holds; nothing where it spells none.
pub uninterp spec fn document(text: Seq<char>) -> Option<Leaves>;

/// What lists of texts become as JSON: the texts quoted and escaped, between
/// brackets.
pub uninterp spec fn list_text(items: Seq<Seq<char>>) -> Seq<char>;

/// The document that `text` spells, by `serde_json::from_str`. What it holds is
/// a function of the text; it is named, not spelled out.
#[verifier::external_body]
pub(crate) fn read(text: &str) -> (r: Result<Value, serde_json::Error>)
    ensures
        match r {
            Ok(v) => document(text@) == Some(leaves(v)),
            Err(_) => document(text@) is None,
        },
{
    serde_json::from_str(text)
}

/// Whether the document has anything at the pointer `at`, by
/// `serde_json::Value::pointer`.
#[verifier::external_body]
pub(crate) fn has(v: &Value, at: &str) -> (r: bool)
    ensures
        r == leaves(*v).present.contains(at@),
{
    v.pointer(at).is_some()
}

/// The text that the document has at the pointer `at`, by
/// `serde_json::Value::as_str`. A text is something present.
#[verifier::external_body]
pub(crate) fn text_at<'a>(v: &'a Value, at: &str) -> (r: Option<&'a str>)
    ensures
        match r {
            Some(t) => {
                &&& leaves(*v).texts.dom().contains(at@)
                &&& leaves(*v).present.contains(at@)
                &&& t@ == leaves(*v).texts[at@]
            },
            None => !leaves(*v).texts.dom().contains(at@),
        },
{
    match v.pointer(at) {
        Some(x) => x.as_str(),
        None => None,
    }
}

/// The whole number that the document has at the pointer `at`, by
/// `serde_json::Value::as_i64`.
#[verifier::external_body]
pub(crate) fn int_at(v: &Value, at: &str) -> (r: Option<i64>)
    ensures
        match r {
            Some(n) => leaves(*v).ints.dom().contains(at@) && n == leaves(*v).ints[at@],
            None => !leaves(*v).ints.dom().contains(at@),
        },
{
    match v.pointer(at) {
        Some(x) => x.as_i64(),
        None => None,
    }
}

/// The truth value that the document has at the pointer `at`, by
/// `serde_json::Value::as_bool`.
#[verifier::external_body]
pub(crate) fn flag_at(v: &Value, at: &str) -> (r: Option<bool>)
    ensures
        match r {
            Some(b) => leaves(*v).flags.dom().contains(at@) && b == leaves(*v).flags[at@],
            None => !leaves(*v).flags.dom().contains(at@),
        },
{
    match v.pointer(at) {
        Some(x) => x.as_bool(),
        None => None,
    }
}

/// The characters of each text.
pub open spec fn views(items: Seq<String>) -> Seq<Seq<char>> {
    items.map_values(|s: String| s@)
}

/// A list of texts as JSON, by `serde_json::to_string`, which cannot fail on
/// texts.
#[verifier::external_body]
pub(crate) fn write_list(items: &Vec<String>) -> (r: String)
    ensures
        r@ == list_text(views(items@)),
{
    serde_json::to_string(items).expect("texts can be written")
}

} // verus!
