//! ICC profile parsing (ICC.1:2022).
//!
//! A profile holds a 128-byte header, a tag table, and tag data that the table points at
//! (entries may share data).

pub mod bytes;
pub mod error;
pub mod header;
pub mod parser;
pub mod tag_table;
pub mod tags;
pub mod types;

pub use error::IccError;
pub use header::{ColorSpace, IccHeader, ProfileClass, RenderingIntent as IccRenderingIntent};
pub use parser::IccProfile;
pub use tags::{CurveData, ParametricCurveData, TagData};
pub use types::{DateTimeNumber, S15Fixed16, TagSignature, XyzNumber};
