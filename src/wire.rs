use vstd::prelude::*;

verus! {

/// A JSON value as sent on the wire to the emulator's HTTP API.
///
/// Only the shapes the protocol needs are present: booleans, non-negative integers,
/// strings, arrays and objects. An object keeps its keys in the order they were written.
#[derive(Debug, PartialEq, Eq)]
pub enum WireValue {
    /// `true` or `false`.
    Bool(bool),
    /// A non-negative integer.
    Int(u64),
    /// A string.
    Str(String),
    /// An ordered array.
    Array(Vec<WireValue>),
    /// An object, as key/value pairs in order.
    Object(Vec<(String, WireValue)>),
}

/// Mathematical model of a [`WireValue`].
pub enum Json {
    /// A boolean.
    Bool(bool),
    /// A non-negative integer.
    Int(nat),
    /// A string, as its characters.
    Str(Seq<char>),
    /// An array of values.
    Array(Seq<Json>),
    /// An object, as key/value pairs in order.
    Object(Seq<(Seq<char>, Json)>),
}

impl View for WireValue {
    type V = Json;

    open spec fn view(&self) -> Json
        decreases self,
    {
        match self {
            WireValue::Bool(b) => Json::Bool(*b),
            WireValue::Int(n) => Json::Int(*n as nat),
            WireValue::Str(s) => Json::Str(s@),
            WireValue::Array(items) => Json::Array(
                Seq::new(
                    items@.len(),
                    |i: int|
                        if 0 <= i < items@.len() {
                            items@[i].view()
                        } else {
                            Json::Bool(false)
                        },
                ),
            ),
            WireValue::Object(fields) => Json::Object(
                Seq::new(
                    fields@.len(),
                    |i: int|
                        if 0 <= i < fields@.len() {
                            (fields@[i].0@, fields@[i].1.view())
                        } else {
                            (Seq::empty(), Json::Bool(false))
                        },
                ),
            ),
        }
    }
}

/// The models of a sequence of wire values.
pub open spec fn items_view(items: Seq<WireValue>) -> Seq<Json> {
    items.map_values(|v: WireValue| v@)
}

/// The models of a sequence of object fields.
pub open spec fn fields_view(fields: Seq<(String, WireValue)>) -> Seq<(Seq<char>, Json)> {
    fields.map_values(|f: (String, WireValue)| (f.0@, f.1@))
}

/// An array's model is the sequence of its items' models.
pub proof fn lemma_array_view(w: WireValue)
    requires
        w is Array,
    ensures
        w@ == Json::Array(items_view(w->Array_0@)),
{
    reveal_with_fuel(<WireValue as View>::view, 2);
    assert(w@->Array_0 =~= items_view(w->Array_0@));
}

/// An object's model is the sequence of its fields' models.
pub proof fn lemma_object_view(w: WireValue)
    requires
        w is Object,
    ensures
        w@ == Json::Object(fields_view(w->Object_0@)),
{
    reveal_with_fuel(<WireValue as View>::view, 2);
    assert(w@->Object_0 =~= fields_view(w->Object_0@));
}

/// The keys of a JSON object, in order.
pub open spec fn keys_of(fields: Seq<(Seq<char>, Json)>) -> Seq<Seq<char>> {
    fields.map_values(|f: (Seq<char>, Json)| f.0)
}

} // verus!
