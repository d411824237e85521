//! Flat JSON objects and their text.
//!
//! The objects are `serde_json`'s own maps and the text is what its encoder
//! writes. Verified code fills an object member by member and reasons about
//! it through [`object_members`]; of the text it knows only that it is
//! [`json_text`] of those members.

use vstd::prelude::*;
use vstd::string::*;

verus! {

/// The value of one member of a flat JSON object, as a specification sees
/// it.
pub enum JsonScalarView {
    Text(Seq<char>),
    Number(u64),
}

/// The value of one member of a flat JSON object.
pub(crate) enum JsonScalar {
    Text(String),
    Number(u64),
}

impl JsonScalar {
    /// The value with its string as a character sequence.
    pub(crate) open spec fn model(self) -> JsonScalarView {
        match self {
            JsonScalar::Text(s) => JsonScalarView::Text(s@),
            JsonScalar::Number(n) => JsonScalarView::Number(n),
        }
    }
}

/// `serde_json::Value`, which the objects hold. Opaque here.
#[verifier::external_type_specification]
#[verifier::external_body]
pub struct ExJsonValue(serde_json::Value);

/// `serde_json::Map`, the object type. Opaque here: what an object holds is
/// told by [`object_members`].
#[verifier::external_type_specification]
#[verifier::external_body]
#[verifier::reject_recursive_types(K)]
#[verifier::reject_recursive_types(V)]
pub struct ExJsonMap<K, V>(serde_json::Map<K, V>);

/// A JSON object as `serde_json` holds it.
pub type JsonObject = serde_json::Map<String, serde_json::Value>;

/// The members of an object that has none.
pub open spec fn no_members() -> Map<Seq<char>, JsonScalarView> {
    Map::empty()
}

/// The members that an object holds: each name with its value.
pub uninterp spec fn object_members(object: JsonObject) -> Map<Seq<char>, JsonScalarView>;

/// The compact JSON text that `serde_json::to_string` returns for an object
/// with these members.
///
/// Nothing is stated of its value: it stands for the encoder's output.
pub uninterp spec fn json_text(members: Map<Seq<char>, JsonScalarView>) -> Seq<char>;

/// A new object without members.
///
/// Trusted: the body is `serde_json::Map::new()`, which makes an empty map.
#[verifier::external_body]
pub(crate) fn new_object() -> (object: JsonObject)
    ensures
        object_members(object) == no_members(),
{
    serde_json::Map::new()
}

/// Sets the member `name` of an object to `value`.
///
/// Trusted: the body turns `value` into the `serde_json::Value` of the same
/// kind and calls `serde_json::Map::insert`, which adds the key or, where
/// the object has it already, replaces its value. All other members stay.
#[verifier::external_body]
pub(crate) fn insert_member(object: &mut JsonObject, name: String, value: JsonScalar)
    ensures
        object_members(*final(object)) == object_members(*old(object)).insert(name@, value.model()),
{
    let value = match value {
        JsonScalar::Text(text) => serde_json::Value::String(text),
        JsonScalar::Number(number) => serde_json::Value::Number(number.into()),
    };
    object.insert(name, value);
}

/// Encodes an object as compact JSON text.
///
/// Trusted: the body wraps the object as `serde_json::Value::Object`, calls
/// `serde_json::to_string` on it and turns an error into `None`.
///
/// The contract says that the call succeeds. The encoder fails only where
/// its writer fails or a map key is no string; here it writes into a
/// `Vec<u8>`, which takes every write, and the keys of an object are
/// strings. Of the text the contract only gives the name. That the text
/// depends on the members alone holds because the map keeps its keys
/// sorted: the crate is built without its `preserve_order` feature.
#[verifier::external_body]
pub(crate) fn encode_object(object: JsonObject) -> (text: Option<String>)
    ensures
        text is Some,
        text matches Some(encoded) ==> encoded@ == json_text(object_members(object)),
{
    serde_json::to_string(&serde_json::Value::Object(object)).ok()
}

} // verus!
