//! What can be wrong with a document.

use vstd::prelude::*;

verus! {

/// Why a JSON text or a generic JSON object is not a GeoJSON document.
///
/// The root object itself reports `MalformedJson`, `ExpectedProperty`,
/// `ExpectedStringValue` and `GeoJsonUnknownType`. The other variants belong
/// to the parsers of the three shapes; the root object hands on whatever such
/// a parser reports.
#[derive(Clone, Copy, Debug, PartialEq, Eq, Structural)]
pub enum Error {
    BboxExpectedArray,
    BboxExpectedF64Values,
    GeoJsonExpectedObject,
    /// The `"type"` member holds a text that is none of the nine tags.
    GeoJsonUnknownType,
    GeometryUnknownType,
    /// The text is not JSON, or the JSON value is not an object.
    MalformedJson,
    PropertiesExpectedObjectOrNull,
    FeatureInvalidGeometryValue,
    FeatureInvalidIdentifierType,
    /// A member that has to hold a text holds another kind of value.
    ExpectedStringValue,
    /// A member that has to be there is missing.
    ExpectedProperty,
    ExpectedF64Value,
    ExpectedArrayValue,
    ExpectedObjectValue,
}

/// The JSON codec could not write a document out as text.
#[derive(Clone, Copy, Debug, PartialEq, Eq, Structural)]
pub struct FormatError;

} // verus!
