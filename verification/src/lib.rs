//! Resolution core for graph-shaped navigational queries against a remote
//! academic-metadata service. The library translates the query interpreter's
//! primitives -- start here, read this property, follow this edge, view this
//! entity as another kind -- into field extraction and fetch plans over a
//! closed set of entity shapes, while the surrounding application performs
//! the actual remote fetches.

pub mod adapter;
pub mod coercion;
pub mod context;
pub mod field_value;
pub mod neighbors;
pub mod properties;
pub mod text;
pub mod vertex;
