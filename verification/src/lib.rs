//! The root object of a GeoJSON document: one of a geometry, a feature or a
//! feature collection, the tag that tells them apart, and the conversions
//! between a document and a generic JSON object or JSON text.

pub mod error;
pub mod geojson;
pub mod json;
pub mod laws;
pub mod object;
pub mod tag;
pub mod text;

pub use error::{Error, FormatError};
pub use geojson::{expect_object, get_object, GeoJson};
pub use json::JsonObject;
pub use object::{object_type, FromObject, ToObject};
pub use tag::Type;
