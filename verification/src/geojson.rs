//! The root object of a document and its conversions.

use vstd::prelude::*;
use vstd::std_specs::cmp::{PartialEqSpec, PartialEqSpecImpl};
use crate::error::{Error, FormatError};
use crate::json::{
    decode, encode, into_object, json_decoding, json_encoding, object_members, object_of,
    JsonObject,
};
use crate::object::{object_type, spec_object_type, FromObject, ToObject};
use crate::tag::Type;

verus! {

/// A GeoJSON document: a geometry, a feature or a feature collection.
///
/// The three shapes are the caller's: the document only asks that each can be
/// read from and written as a generic object.
#[derive(Debug)]
pub enum GeoJson<G, F, C> {
    Geometry(G),
    Feature(F),
    FeatureCollection(C),
}

impl<G: PartialEq, F: PartialEq, C: PartialEq> PartialEq for GeoJson<G, F, C> {
    /// Two documents are equal when they hold equal shapes of one kind.
    fn eq(&self, other: &Self) -> (r: bool) {
        match (self, other) {
            (GeoJson::Geometry(a), GeoJson::Geometry(b)) => a.eq(b),
            (GeoJson::Feature(a), GeoJson::Feature(b)) => a.eq(b),
            (GeoJson::FeatureCollection(a), GeoJson::FeatureCollection(b)) => a.eq(b),
            _ => false,
        }
    }
}

impl<G: PartialEq, F: PartialEq, C: PartialEq> PartialEqSpecImpl for GeoJson<G, F, C> {
    /// `==` on documents keeps to `eq_spec` where `==` on each of the three
    /// shapes keeps to its own.
    open spec fn obeys_eq_spec() -> bool {
        G::obeys_eq_spec() && F::obeys_eq_spec() && C::obeys_eq_spec()
    }

    /// Documents of one kind compare as their shapes do; documents of two
    /// kinds are never equal.
    open spec fn eq_spec(&self, other: &Self) -> bool {
        match (*self, *other) {
            (GeoJson::Geometry(a), GeoJson::Geometry(b)) => a.eq_spec(&b),
            (GeoJson::Feature(a), GeoJson::Feature(b)) => a.eq_spec(&b),
            (GeoJson::FeatureCollection(a), GeoJson::FeatureCollection(b)) => a.eq_spec(&b),
            _ => false,
        }
    }
}

impl<G: Clone, F: Clone, C: Clone> Clone for GeoJson<G, F, C> {
    /// A document that holds a clone of the shape.
    fn clone(&self) -> (r: Self)
        ensures
            match (*self, r) {
                (GeoJson::Geometry(a), GeoJson::Geometry(b)) => cloned(a, b),
                (GeoJson::Feature(a), GeoJson::Feature(b)) => cloned(a, b),
                (GeoJson::FeatureCollection(a), GeoJson::FeatureCollection(b)) => cloned(a, b),
                _ => false,
            },
    {
        match self {
            GeoJson::Geometry(geometry) => GeoJson::Geometry(geometry.clone()),
            GeoJson::Feature(feature) => GeoJson::Feature(feature.clone()),
            GeoJson::FeatureCollection(collection) => GeoJson::FeatureCollection(
                collection.clone(),
            ),
        }
    }
}

impl<G, F, C> GeoJson<G, F, C> {
    /// The document that is the given geometry.
    pub fn from_geometry(geometry: G) -> (r: Self)
        ensures
            r == GeoJson::<G, F, C>::Geometry(geometry),
    {
        GeoJson::Geometry(geometry)
    }

    /// The document that is the given feature.
    pub fn from_feature(feature: F) -> (r: Self)
        ensures
            r == GeoJson::<G, F, C>::Feature(feature),
    {
        GeoJson::Feature(feature)
    }

    /// The document that is the given feature collection.
    pub fn from_feature_collection(collection: C) -> (r: Self)
        ensures
            r == GeoJson::<G, F, C>::FeatureCollection(collection),
    {
        GeoJson::FeatureCollection(collection)
    }
}

/// The members of the object that a text decodes to, where the text is JSON
/// and the value it spells is an object.
pub open spec fn decoded_object(text: Seq<char>) -> Option<Map<Seq<char>, serde_json::Value>> {
    match json_decoding(text) {
        Some(value) => object_of(value),
        None => None,
    }
}

/// Takes the object out of a decoded value. A value of any other kind, be
/// it an array, a text, a number, a boolean or null, is `MalformedJson`.
pub fn expect_object(value: serde_json::Value) -> (r: Result<JsonObject, Error>)
    ensures
        match r {
            Ok(object) => object_of(value) == Some(object_members(object)),
            Err(e) => e == Error::MalformedJson && object_of(value) is None,
        },
{
    match into_object(value) {
        Some(object) => Ok(object),
        None => Err(Error::MalformedJson),
    }
}

/// Decodes a text and takes the object out of it. A text that is not JSON,
/// and one that spells a JSON value other than an object, is `MalformedJson`.
pub fn get_object(s: &str) -> (r: Result<JsonObject, Error>)
    ensures
        match r {
            Ok(object) => decoded_object(s@) == Some(object_members(object)),
            Err(e) => e == Error::MalformedJson && decoded_object(s@) is None,
        },
{
    match decode(s) {
        Some(value) => expect_object(value),
        None => Err(Error::MalformedJson),
    }
}

impl<G: FromObject, F: FromObject, C: FromObject> GeoJson<G, F, C> {
    /// What reading an object yields once its tag is read.
    ///
    /// A text that resolved to no tag is `GeoJsonUnknownType`. A tag of the
    /// geometry family hands the object to the geometry, `Feature` to the
    /// feature, `FeatureCollection` to the feature collection. What the shape
    /// answers is the answer: wrapped where it is a shape, unchanged where it
    /// is an error.
    pub open spec fn spec_from_tagged_object(
        tag: Option<Type>,
        members: Map<Seq<char>, serde_json::Value>,
    ) -> Result<Self, Error> {
        match tag {
            None => Err(Error::GeoJsonUnknownType),
            Some(Type::Feature) => match F::spec_from_object(members) {
                Ok(feature) => Ok(GeoJson::Feature(feature)),
                Err(e) => Err(e),
            },
            Some(Type::FeatureCollection) => match C::spec_from_object(members) {
                Ok(collection) => Ok(GeoJson::FeatureCollection(collection)),
                Err(e) => Err(e),
            },
            Some(
                Type::Point
                | Type::MultiPoint
                | Type::LineString
                | Type::MultiLineString
                | Type::Polygon
                | Type::MultiPolygon
                | Type::GeometryCollection,
            ) => match G::spec_from_object(members) {
                Ok(geometry) => Ok(GeoJson::Geometry(geometry)),
                Err(e) => Err(e),
            },
        }
    }

    /// Reads the object as the shape that the tag names. The tag alone picks
    /// the shape, and without a tag no shape is asked.
    pub fn from_tagged_object(tag: Option<Type>, object: JsonObject) -> (r: Result<Self, Error>)
        ensures
            r == Self::spec_from_tagged_object(tag, object_members(object)),
            tag is None ==> r == Err::<Self, Error>(Error::GeoJsonUnknownType),
    {
        match tag {
            Some(t) => {
                if t.is_geometry_type() {
                    match G::from_object(object) {
                        Ok(geometry) => Ok(GeoJson::Geometry(geometry)),
                        Err(e) => Err(e),
                    }
                } else {
                    match t {
                        Type::Feature => match F::from_object(object) {
                            Ok(feature) => Ok(GeoJson::Feature(feature)),
                            Err(e) => Err(e),
                        },
                        Type::FeatureCollection => match C::from_object(object) {
                            Ok(collection) => Ok(GeoJson::FeatureCollection(collection)),
                            Err(e) => Err(e),
                        },
                        Type::Point
                        | Type::MultiPoint
                        | Type::LineString
                        | Type::MultiLineString
                        | Type::Polygon
                        | Type::MultiPolygon
                        | Type::GeometryCollection => Err(Error::GeoJsonUnknownType),
                    }
                }
            },
            None => Err(Error::GeoJsonUnknownType),
        }
    }
}

impl<G: FromObject, F: FromObject, C: FromObject> FromObject for GeoJson<G, F, C> {
    /// The tag is read first and decides everything: a missing or ill-typed
    /// tag is an error of the document's own, and so is a text that is no
    /// tag. Else the object is read as the shape that the tag names.
    open spec fn spec_from_object(members: Map<Seq<char>, serde_json::Value>) -> Result<
        Self,
        Error,
    > {
        match spec_object_type(members) {
            Ok(tag) => Self::spec_from_tagged_object(tag, members),
            Err(e) => Err(e),
        }
    }

    fn from_object(object: JsonObject) -> (r: Result<Self, Error>) {
        let tag = match object_type(&object) {
            Ok(tag) => tag,
            Err(e) => {
                return Err(e);
            },
        };
        Self::from_tagged_object(tag, object)
    }
}

impl<G: ToObject, F: ToObject, C: ToObject> ToObject for GeoJson<G, F, C> {
    /// A document is written as the shape it holds is.
    open spec fn spec_to_object(&self) -> Map<Seq<char>, serde_json::Value> {
        match self {
            GeoJson::Geometry(geometry) => geometry.spec_to_object(),
            GeoJson::Feature(feature) => feature.spec_to_object(),
            GeoJson::FeatureCollection(collection) => collection.spec_to_object(),
        }
    }

    fn to_object(&self) -> (r: JsonObject) {
        match self {
            GeoJson::Geometry(geometry) => geometry.to_object(),
            GeoJson::Feature(feature) => feature.to_object(),
            GeoJson::FeatureCollection(collection) => collection.to_object(),
        }
    }
}

impl<G: FromObject, F: FromObject, C: FromObject> GeoJson<G, F, C> {
    /// What reading a text yields: `MalformedJson` where the text does not
    /// decode to an object, and else what reading that object yields.
    pub open spec fn spec_from_str(text: Seq<char>) -> Result<Self, Error> {
        match decoded_object(text) {
            Some(members) => Self::spec_from_object(members),
            None => Err(Error::MalformedJson),
        }
    }

    /// Reads a document from JSON text.
    pub fn from_str(s: &str) -> (r: Result<Self, Error>)
        ensures
            r == Self::spec_from_str(s@),
    {
        let object = match get_object(s) {
            Ok(object) => object,
            Err(e) => {
                return Err(e);
            },
        };
        Self::from_object(object)
    }
}

impl<G: ToObject, F: ToObject, C: ToObject> GeoJson<G, F, C> {
    /// The JSON text of the document, where the codec can write its object.
    pub open spec fn spec_to_string(&self) -> Option<Seq<char>> {
        json_encoding(self.spec_to_object())
    }

    /// Writes the document as JSON text. Where the codec cannot write the
    /// document's object, that is reported and no text comes back.
    pub fn to_string(&self) -> (r: Result<String, FormatError>)
        ensures
            match r {
                Ok(text) => self.spec_to_string() == Some(text@),
                Err(_) => self.spec_to_string() is None,
            },
    {
        let object = self.to_object();
        match encode(&object) {
            Some(text) => Ok(text),
            None => Err(FormatError),
        }
    }
}

} // verus!
