//! Transform configuration that is exact: rendering intents and transform flags.

pub mod context;

pub use context::{RenderIntent, TransformFlags};
