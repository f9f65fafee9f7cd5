//! The JSON values that decoded event arguments are written as.

use vstd::prelude::*;

verus! {

/// A JSON value: the four forms that event arguments use.
#[derive(Debug)]
pub enum Json {
    Bool(bool),
    Text(String),
    Number(u64),
    Array(Vec<Json>),
}

/// The mathematical form of a `Json`.
pub enum JsonView {
    Bool(bool),
    Text(Seq<char>),
    Number(u64),
    Array(Seq<JsonView>),
}

impl View for Json {
    type V = JsonView;

    open spec fn view(&self) -> JsonView
        decreases self,
    {
        match self {
            Json::Bool(b) => JsonView::Bool(*b),
            Json::Text(s) => JsonView::Text(s@),
            Json::Number(n) => JsonView::Number(*n),
            Json::Array(items) => JsonView::Array(
                Seq::new(
                    items@.len(),
                    |i: int|
                        if 0 <= i < items@.len() {
                            items@[i].view()
                        } else {
                            JsonView::Bool(false)
                        },
                ),
            ),
        }
    }
}

/// The views of a sequence of JSON values, in order.
pub open spec fn jsons_view(items: Seq<Json>) -> Seq<JsonView> {
    Seq::new(items.len(), |i: int| items[i]@)
}

/// The view of an array is the array of the views of its items.
pub proof fn lemma_array_view(items: Vec<Json>)
    ensures
        Json::Array(items)@ == JsonView::Array(jsons_view(items@)),
{
    reveal_with_fuel(<Json as View>::view, 2);
    assert(Json::Array(items)@->Array_0 =~= jsons_view(items@));
}

/// The compact JSON text of a value, as `serde_json::to_string` writes it.
pub uninterp spec fn json_text(value: JsonView) -> Seq<char>;

/// serde_json's own value type; only carried from `to_serde` to the writer.
#[verifier::external_type_specification]
#[verifier::external_body]
pub struct ExSerdeValue(serde_json::Value);

/// Builds the `serde_json::Value` of the same shape, variant by variant.
#[verifier::external_body]
fn to_serde(value: &Json) -> serde_json::Value {
    match value {
        Json::Bool(b) => serde_json::Value::Bool(*b),
        Json::Text(s) => serde_json::Value::String(s.clone()),
        Json::Number(n) => serde_json::Value::from(*n),
        Json::Array(items) => serde_json::Value::Array(items.iter().map(to_serde).collect()),
    }
}

/// Calls `serde_json::to_string` on the value. The text is named `json_text`.
/// The writer fails only on a map with keys that are no strings or on a failing
/// `Serialize` impl; a `serde_json::Value` has neither.
#[verifier::external_body]
fn write_json(value: &Json) -> (out: String)
    ensures
        out@ == json_text(value@),
{
    serde_json::to_string(&to_serde(value)).expect("a JSON value always serializes")
}

impl Json {
    /// The compact JSON text of the value.
    pub fn to_text(&self) -> (out: String)
        ensures
            out@ == json_text(self@),
    {
        write_json(self)
    }
}

} // verus!
