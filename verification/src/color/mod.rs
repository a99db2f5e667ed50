//! Colour vocabulary that is exact: the standard illuminants by name.

pub mod white_point;

pub use white_point::StandardIlluminant;
