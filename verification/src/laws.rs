//! What holds of the conversions, proved from their definitions.

use vstd::prelude::*;
use crate::error::Error;
use crate::geojson::{decoded_object, GeoJson};
use crate::json::{json_encoding, string_of};
use crate::object::{spec_object_type, type_key, FromObject, ToObject};
use crate::tag::Type;

verus! {

/// Whether a shape is read back from the object it is written as.
pub open spec fn reads_back<S: FromObject + ToObject>(shape: S) -> bool {
    S::spec_from_object(shape.spec_to_object()) == Ok::<S, Error>(shape)
}

/// Whether the codec reads back, from the text it writes for an object with
/// the given members, an object with those members.
pub open spec fn codec_reads_back(members: Map<Seq<char>, serde_json::Value>) -> bool {
    match json_encoding(members) {
        Some(text) => decoded_object(text) == Some(members),
        None => false,
    }
}

impl<G: FromObject + ToObject, F: FromObject + ToObject, C: FromObject + ToObject> GeoJson<
    G,
    F,
    C,
> {
    /// A document is valid when the shape it holds is: the object that the
    /// shape is written as carries a tag of the shape's own family, and the
    /// shape is read back from that object.
    pub open spec fn valid(self) -> bool {
        match self {
            GeoJson::Geometry(geometry) => {
                &&& spec_object_type(geometry.spec_to_object()) matches Ok(Some(tag))
                &&& tag.is_geometry_type()
                &&& reads_back(geometry)
            },
            GeoJson::Feature(feature) => {
                &&& spec_object_type(feature.spec_to_object()) == Ok::<Option<Type>, Error>(
                    Some(Type::Feature),
                )
                &&& reads_back(feature)
            },
            GeoJson::FeatureCollection(collection) => {
                &&& spec_object_type(collection.spec_to_object()) == Ok::<Option<Type>, Error>(
                    Some(Type::FeatureCollection),
                )
                &&& reads_back(collection)
            },
        }
    }
}

/// A valid document is read back from the object it is written as.
pub proof fn object_round_trip<
    G: FromObject + ToObject,
    F: FromObject + ToObject,
    C: FromObject + ToObject,
>(doc: GeoJson<G, F, C>)
    requires
        doc.valid(),
    ensures
        GeoJson::<G, F, C>::spec_from_object(doc.spec_to_object()) == Ok::<GeoJson<G, F, C>, Error>(
            doc,
        ),
{
}

/// Only a valid document is read back from the object it is written as.
pub proof fn object_round_trip_needs_valid<
    G: FromObject + ToObject,
    F: FromObject + ToObject,
    C: FromObject + ToObject,
>(doc: GeoJson<G, F, C>)
    requires
        GeoJson::<G, F, C>::spec_from_object(doc.spec_to_object()) == Ok::<GeoJson<G, F, C>, Error>(
            doc,
        ),
    ensures
        doc.valid(),
{
}

/// A valid document is read back from the text it is written as, where the
/// codec reads the document's object back from that text.
pub proof fn text_round_trip<
    G: FromObject + ToObject,
    F: FromObject + ToObject,
    C: FromObject + ToObject,
>(doc: GeoJson<G, F, C>)
    requires
        doc.valid(),
        codec_reads_back(doc.spec_to_object()),
    ensures
        doc.spec_to_string() matches Some(text) && GeoJson::<G, F, C>::spec_from_str(text) == Ok::<
            GeoJson<G, F, C>,
            Error,
        >(doc),
{
}

/// An object without a `"type"` member is no document: `ExpectedProperty`,
/// whatever else it holds.
pub proof fn missing_type_is_expected_property<G: FromObject, F: FromObject, C: FromObject>(
    members: Map<Seq<char>, serde_json::Value>,
)
    requires
        !members.contains_key(type_key()),
    ensures
        GeoJson::<G, F, C>::spec_from_object(members) == Err::<GeoJson<G, F, C>, Error>(
            Error::ExpectedProperty,
        ),
{
}

/// An object whose `"type"` member is a text that spells none of the nine
/// tags is no document: `GeoJsonUnknownType`, whatever the shapes would make
/// of the object.
pub proof fn unknown_type_is_rejected<G: FromObject, F: FromObject, C: FromObject>(
    members: Map<Seq<char>, serde_json::Value>,
    text: Seq<char>,
)
    requires
        members.contains_key(type_key()),
        string_of(members[type_key()]) == Some(text),
        forall|tag: Type| text != tag.literal(),
    ensures
        GeoJson::<G, F, C>::spec_from_object(members) == Err::<GeoJson<G, F, C>, Error>(
            Error::GeoJsonUnknownType,
        ),
{
    assert(text != Type::Point.literal());
    assert(text != Type::MultiPoint.literal());
    assert(text != Type::LineString.literal());
    assert(text != Type::MultiLineString.literal());
    assert(text != Type::Polygon.literal());
    assert(text != Type::MultiPolygon.literal());
    assert(text != Type::GeometryCollection.literal());
    assert(text != Type::Feature.literal());
    assert(text != Type::FeatureCollection.literal());
}

/// Under a tag of the geometry family the geometry alone decides: the
/// document is a geometry where the geometry reads the object, and the
/// geometry's own error, unchanged, where it does not. Neither a feature nor
/// a feature collection comes of such an object.
pub proof fn geometry_tag_reads_geometry<G: FromObject, F: FromObject, C: FromObject>(
    members: Map<Seq<char>, serde_json::Value>,
)
    requires
        spec_object_type(members) matches Ok(Some(tag)) && tag.is_geometry_type(),
    ensures
        GeoJson::<G, F, C>::spec_from_object(members) matches Ok(doc) ==> doc is Geometry,
        match G::spec_from_object(members) {
            Ok(geometry) => GeoJson::<G, F, C>::spec_from_object(members) == Ok::<
                GeoJson<G, F, C>,
                Error,
            >(GeoJson::Geometry(geometry)),
            Err(e) => GeoJson::<G, F, C>::spec_from_object(members) == Err::<
                GeoJson<G, F, C>,
                Error,
            >(e),
        },
{
}

/// Under the tag `Feature` the feature alone decides, and under
/// `FeatureCollection` the feature collection: the shape wrapped, or the
/// shape's own error unchanged.
pub proof fn record_tag_reads_record<G: FromObject, F: FromObject, C: FromObject>(
    members: Map<Seq<char>, serde_json::Value>,
)
    ensures
        spec_object_type(members) == Ok::<Option<Type>, Error>(Some(Type::Feature)) ==> GeoJson::<
            G,
            F,
            C,
        >::spec_from_object(members) == match F::spec_from_object(members) {
            Ok(feature) => Ok::<GeoJson<G, F, C>, Error>(GeoJson::Feature(feature)),
            Err(e) => Err(e),
        },
        spec_object_type(members) == Ok::<Option<Type>, Error>(Some(Type::FeatureCollection))
            ==> GeoJson::<G, F, C>::spec_from_object(members) == match C::spec_from_object(
            members,
        ) {
            Ok(collection) => Ok::<GeoJson<G, F, C>, Error>(
                GeoJson::FeatureCollection(collection),
            ),
            Err(e) => Err(e),
        },
{
}

} // verus!
