//! The tag a document carries under its `"type"` key.

use vstd::prelude::*;
use crate::text::str_eq;

verus! {

/// One of the nine tags a GeoJSON object can carry.
#[derive(Clone, Copy, Debug, PartialEq, Eq, Structural)]
pub enum Type {
    Point,
    MultiPoint,
    LineString,
    MultiLineString,
    Polygon,
    MultiPolygon,
    GeometryCollection,
    Feature,
    FeatureCollection,
}

impl Type {
    /// The text that stands for this tag in a document.
    pub open spec fn literal(self) -> Seq<char> {
        match self {
            Type::Point => "Point"@,
            Type::MultiPoint => "MultiPoint"@,
            Type::LineString => "LineString"@,
            Type::MultiLineString => "MultiLineString"@,
            Type::Polygon => "Polygon"@,
            Type::MultiPolygon => "MultiPolygon"@,
            Type::GeometryCollection => "GeometryCollection"@,
            Type::Feature => "Feature"@,
            Type::FeatureCollection => "FeatureCollection"@,
        }
    }

    /// The tag a text stands for, if it stands for one.
    pub open spec fn spec_from_str(s: Seq<char>) -> Option<Type> {
        if s == Type::Point.literal() {
            Some(Type::Point)
        } else if s == Type::MultiPoint.literal() {
            Some(Type::MultiPoint)
        } else if s == Type::LineString.literal() {
            Some(Type::LineString)
        } else if s == Type::MultiLineString.literal() {
            Some(Type::MultiLineString)
        } else if s == Type::Polygon.literal() {
            Some(Type::Polygon)
        } else if s == Type::MultiPolygon.literal() {
            Some(Type::MultiPolygon)
        } else if s == Type::GeometryCollection.literal() {
            Some(Type::GeometryCollection)
        } else if s == Type::Feature.literal() {
            Some(Type::Feature)
        } else if s == Type::FeatureCollection.literal() {
            Some(Type::FeatureCollection)
        } else {
            None
        }
    }

    /// Whether the tag belongs to the geometry family: every tag but
    /// `Feature` and `FeatureCollection`.
    pub open spec fn spec_is_geometry_type(self) -> bool {
        self != Type::Feature && self != Type::FeatureCollection
    }

    /// Whether the tag names a geometry.
    #[verifier::when_used_as_spec(spec_is_geometry_type)]
    pub fn is_geometry_type(self) -> (r: bool)
        ensures
            r == self.spec_is_geometry_type(),
    {
        match self {
            Type::Point
            | Type::MultiPoint
            | Type::LineString
            | Type::MultiLineString
            | Type::Polygon
            | Type::MultiPolygon
            | Type::GeometryCollection => true,
            Type::Feature | Type::FeatureCollection => false,
        }
    }

    /// Resolves a text to the tag it spells, exactly: no trimming, no change
    /// of case, no other spelling. A text that spells no tag gives `None`.
    pub fn from_str(s: &str) -> (r: Option<Type>)
        ensures
            r == Type::spec_from_str(s@),
            r matches Some(tag) ==> s@ == tag.literal(),
            r is None ==> forall|tag: Type| s@ != tag.literal(),
    {
        proof {
            assert forall|tag: Type| Type::spec_from_str(s@) == Some(tag) <==> s@
                == tag.literal() by {
                tag_texts_are_exact(s@, tag);
            }
        }
        if str_eq(s, "Point") {
            Some(Type::Point)
        } else if str_eq(s, "MultiPoint") {
            Some(Type::MultiPoint)
        } else if str_eq(s, "LineString") {
            Some(Type::LineString)
        } else if str_eq(s, "MultiLineString") {
            Some(Type::MultiLineString)
        } else if str_eq(s, "Polygon") {
            Some(Type::Polygon)
        } else if str_eq(s, "MultiPolygon") {
            Some(Type::MultiPolygon)
        } else if str_eq(s, "GeometryCollection") {
            Some(Type::GeometryCollection)
        } else if str_eq(s, "Feature") {
            Some(Type::Feature)
        } else if str_eq(s, "FeatureCollection") {
            Some(Type::FeatureCollection)
        } else {
            None
        }
    }
}

/// Two tags never share a text.
pub proof fn tag_texts_differ(a: Type, b: Type)
    requires
        a != b,
    ensures
        a.literal() != b.literal(),
{
    reveal_strlit("Point");
    reveal_strlit("MultiPoint");
    reveal_strlit("LineString");
    reveal_strlit("MultiLineString");
    reveal_strlit("Polygon");
    reveal_strlit("MultiPolygon");
    reveal_strlit("GeometryCollection");
    reveal_strlit("Feature");
    reveal_strlit("FeatureCollection");
    assert("Point"@.len() == 5);
    assert("MultiPoint"@.len() == 10);
    assert("LineString"@.len() == 10);
    assert("MultiLineString"@.len() == 15);
    assert("Polygon"@.len() == 7);
    assert("MultiPolygon"@.len() == 12);
    assert("GeometryCollection"@.len() == 18);
    assert("Feature"@.len() == 7);
    assert("FeatureCollection"@.len() == 17);
    assert("MultiPoint"@[0] != "LineString"@[0]);
    assert("Polygon"@[0] != "Feature"@[0]);
}

/// Each tag is resolved from its own text, and from no other: a text
/// resolves to a tag exactly when it is that tag's text.
pub proof fn tag_texts_are_exact(s: Seq<char>, tag: Type)
    ensures
        Type::spec_from_str(tag.literal()) == Some(tag),
        Type::spec_from_str(s) == Some(tag) <==> s == tag.literal(),
{
    assert forall|other: Type| other != tag implies other.literal() != tag.literal() by {
        tag_texts_differ(other, tag);
    }
    assert(Type::Point.literal() != tag.literal() || tag == Type::Point);
    assert(Type::MultiPoint.literal() != tag.literal() || tag == Type::MultiPoint);
    assert(Type::LineString.literal() != tag.literal() || tag == Type::LineString);
    assert(Type::MultiLineString.literal() != tag.literal() || tag == Type::MultiLineString);
    assert(Type::Polygon.literal() != tag.literal() || tag == Type::Polygon);
    assert(Type::MultiPolygon.literal() != tag.literal() || tag == Type::MultiPolygon);
    assert(Type::GeometryCollection.literal() != tag.literal() || tag
        == Type::GeometryCollection);
    assert(Type::Feature.literal() != tag.literal() || tag == Type::Feature);
    assert(Type::FeatureCollection.literal() != tag.literal() || tag == Type::FeatureCollection);
}

} // verus!
