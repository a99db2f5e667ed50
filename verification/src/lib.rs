//! oxcms - a colour management system.
//!
//! The verified core: ICC profile parsing (header, tag table and tag types), exact
//! fixed-point and signature types, colour profiles backed by moxcms, and the
//! configuration types of transforms.

pub mod color;
pub mod error;
pub mod icc;
pub mod math;
pub mod numfmt;
pub mod pipeline;
pub mod profile;
pub mod simd;
pub mod transform;
pub mod types;

pub use error::{Error, Result};
pub use profile::ColorProfile;
pub use transform::{Layout, RenderingIntent, TransformOptions};
