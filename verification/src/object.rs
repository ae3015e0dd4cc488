//! What a shape offers so that a document can carry it, and how the tag of a
//! generic object is read.

use vstd::prelude::*;
use crate::error::Error;
use crate::json::{object_get, object_members, string_of, JsonObject};
use crate::tag::Type;

verus! {

/// A shape that can be read from a generic object.
///
/// What `from_object` returns has to depend on the members of the object
/// alone: the same members, the same answer. A shape defined outside verified
/// code promises so by implementing the trait; nothing else is asked of it.
pub trait FromObject: Sized {
    /// What reading an object with the given members yields.
    ///
    /// A shape defined in verified code gives this a body of its own, and
    /// its `from_object` is held to it. Left as it is, this is a function of
    /// which nothing is known but that `from_object` computes it.
    open spec fn spec_from_object(members: Map<Seq<char>, serde_json::Value>) -> Result<
        Self,
        Error,
    > {
        let reader = arbitrary::<spec_fn(Map<Seq<char>, serde_json::Value>) -> Result<Self, Error>>();
        reader(members)
    }

    /// Reads the shape from the object, or says why the object is not one.
    fn from_object(object: JsonObject) -> (r: Result<Self, Error>)
        ensures
            r == Self::spec_from_object(object_members(object)),
    ;
}

/// A shape that can be written as a generic object.
///
/// The members of the object that `to_object` returns have to depend on the
/// shape alone. A shape defined outside verified code promises so by
/// implementing the trait; nothing else is asked of it.
pub trait ToObject: Sized {
    /// The members of the object that the shape is written as.
    ///
    /// A shape defined in verified code gives this a body of its own, and
    /// its `to_object` is held to it. Left as it is, this is a function of
    /// which nothing is known but that `to_object` computes it.
    open spec fn spec_to_object(&self) -> Map<Seq<char>, serde_json::Value> {
        let writer = arbitrary::<spec_fn(Self) -> Map<Seq<char>, serde_json::Value>>();
        writer(*self)
    }

    /// Writes the shape as a generic object.
    fn to_object(&self) -> (r: JsonObject)
        ensures
            object_members(r) == self.spec_to_object(),
    ;
}

/// The key under which an object carries its tag.
pub open spec fn type_key() -> Seq<char> {
    "type"@
}

/// The tag that an object with the given members declares.
///
/// Without a `"type"` member there is none to read: `ExpectedProperty`. A
/// `"type"` member that is not a JSON string is `ExpectedStringValue`. A text
/// that spells none of the nine tags is read, and yields `Ok(None)`.
pub open spec fn spec_object_type(members: Map<Seq<char>, serde_json::Value>) -> Result<
    Option<Type>,
    Error,
> {
    if !members.contains_key(type_key()) {
        Err(Error::ExpectedProperty)
    } else {
        match string_of(members[type_key()]) {
            Some(text) => Ok(Type::spec_from_str(text)),
            None => Err(Error::ExpectedStringValue),
        }
    }
}

/// Reads the tag that a generic object declares under `"type"`.
pub fn object_type(object: &JsonObject) -> (r: Result<Option<Type>, Error>)
    ensures
        r == spec_object_type(object_members(*object)),
{
    match object_get(object, "type") {
        Some(value) => match value.as_str() {
            Some(text) => Ok(Type::from_str(text)),
            None => Err(Error::ExpectedStringValue),
        },
        None => Err(Error::ExpectedProperty),
    }
}

} // verus!
