//! Public API types that do not expose the internals of the colour engine.

use vstd::prelude::*;

use crate::numfmt::{decimal, push_decimal};

verus! {

/// Color space of profile data
#[derive(Debug, Clone, Copy, PartialEq, Eq, Hash)]
#[non_exhaustive]
pub enum ColorSpace {
    /// RGB color space
    Rgb,
    /// CMYK color space
    Cmyk,
    /// Grayscale
    Gray,
    /// CIELAB
    Lab,
    /// CIEXYZ
    Xyz,
    /// YCbCr (video)
    YCbCr,
    /// Luminance + Chroma (video)
    Luv,
    /// HSV (hue, saturation, value)
    Hsv,
    /// HLS (hue, lightness, saturation)
    Hls,
    /// CMY (without K)
    Cmy,
    /// Multi-channel (5+ channels)
    MultiChannel,
    /// Unknown or unsupported
    Unknown,
}

/// The number of channels of each colour space (0 where it varies).
pub open spec fn channel_count(c: ColorSpace) -> nat {
    match c {
        ColorSpace::Gray => 1,
        ColorSpace::Rgb | ColorSpace::Lab | ColorSpace::Xyz | ColorSpace::YCbCr | ColorSpace::Luv
        | ColorSpace::Hsv | ColorSpace::Hls => 3,
        ColorSpace::Cmy => 3,
        ColorSpace::Cmyk => 4,
        ColorSpace::MultiChannel | ColorSpace::Unknown => 0,
    }
}

impl ColorSpace {
    /// Number of channels for this color space (0 where it varies)
    pub fn channels(&self) -> (r: usize)
        ensures
            r == channel_count(*self),
    {
        match self {
            ColorSpace::Gray => 1,
            ColorSpace::Rgb | ColorSpace::Lab | ColorSpace::Xyz | ColorSpace::YCbCr
            | ColorSpace::Luv | ColorSpace::Hsv | ColorSpace::Hls => 3,
            ColorSpace::Cmy => 3,
            ColorSpace::Cmyk => 4,
            ColorSpace::MultiChannel | ColorSpace::Unknown => 0,
        }
    }

    /// Check if this is an RGB-like color space
    pub fn is_rgb(&self) -> (r: bool)
        ensures
            r == (*self is Rgb),
    {
        matches!(self, ColorSpace::Rgb)
    }

    /// Check if this is a CMYK color space
    pub fn is_cmyk(&self) -> (r: bool)
        ensures
            r == (*self is Cmyk),
    {
        matches!(self, ColorSpace::Cmyk)
    }

    /// Check if this is a grayscale color space
    pub fn is_gray(&self) -> (r: bool)
        ensures
            r == (*self is Gray),
    {
        matches!(self, ColorSpace::Gray)
    }
}

/// ICC profile class (device type)
#[derive(Debug, Clone, Copy, PartialEq, Eq, Hash)]
#[non_exhaustive]
pub enum ProfileClass {
    /// Input device (scanner, camera)
    Input,
    /// Display device (monitor)
    Display,
    /// Output device (printer)
    Output,
    /// Device link (direct device-to-device)
    DeviceLink,
    /// Color space conversion
    ColorSpace,
    /// Abstract profile
    Abstract,
    /// Named color profile
    NamedColor,
    /// Unknown class
    Unknown,
}

/// ICC profile version
#[derive(Debug, Clone, Copy, PartialEq, Eq, Hash)]
pub struct ProfileVersion {
    /// Major version (2 or 4)
    pub major: u8,
    /// Minor version
    pub minor: u8,
    /// Patch version
    pub patch: u8,
}

/// The dotted rendering of a version, "major.minor.patch".
pub open spec fn version_text(v: ProfileVersion) -> Seq<char> {
    decimal(v.major as nat) + "."@ + decimal(v.minor as nat) + "."@ + decimal(v.patch as nat)
}

impl ProfileVersion {
    /// Create a new profile version
    pub fn new(major: u8, minor: u8, patch: u8) -> (r: Self)
        ensures
            r == (ProfileVersion { major, minor, patch }),
    {
        ProfileVersion { major, minor, patch }
    }

    /// ICC v2.4
    pub fn v2_4() -> (r: Self)
        ensures
            r == (ProfileVersion { major: 2, minor: 4, patch: 0 }),
    {
        ProfileVersion::new(2, 4, 0)
    }

    /// ICC v4.3
    pub fn v4_3() -> (r: Self)
        ensures
            r == (ProfileVersion { major: 4, minor: 3, patch: 0 }),
    {
        ProfileVersion::new(4, 3, 0)
    }

    /// ICC v4.4
    pub fn v4_4() -> (r: Self)
        ensures
            r == (ProfileVersion { major: 4, minor: 4, patch: 0 }),
    {
        ProfileVersion::new(4, 4, 0)
    }

    /// Check if this is a v2 profile
    pub fn is_v2(&self) -> (r: bool)
        ensures
            r == (self.major == 2),
    {
        self.major == 2
    }

    /// Check if this is a v4 profile
    pub fn is_v4(&self) -> (r: bool)
        ensures
            r == (self.major == 4),
    {
        self.major == 4
    }

    /// The version as "major.minor.patch".
    pub fn to_string(&self) -> (r: String)
        ensures
            r@ == version_text(*self),
    {
        let mut s = String::new();
        push_decimal(&mut s, self.major as u64);
        s.append(".");
        push_decimal(&mut s, self.minor as u64);
        s.append(".");
        push_decimal(&mut s, self.patch as u64);
        s
    }
}

/// Rendering intent for color transformations
#[derive(Debug, Clone, Copy, PartialEq, Eq, Hash, Default)]
#[non_exhaustive]
pub enum RenderingIntent {
    /// Perceptual - compress gamut to fit, preserve relationships
    #[default]
    Perceptual,
    /// Relative colorimetric - map white point, clip out-of-gamut
    RelativeColorimetric,
    /// Saturation - preserve saturation over accuracy
    Saturation,
    /// Absolute colorimetric - no white point mapping
    AbsoluteColorimetric,
}

/// The colour space of each colour space of profile data; the spaces this type does not
/// name (Yxy and the n-colour spaces) read as unknown.
pub open spec fn color_space_of_data(cs: crate::profile::DataColorSpace) -> ColorSpace {
    match cs {
        crate::profile::DataColorSpace::Rgb => ColorSpace::Rgb,
        crate::profile::DataColorSpace::Cmyk => ColorSpace::Cmyk,
        crate::profile::DataColorSpace::Gray => ColorSpace::Gray,
        crate::profile::DataColorSpace::Lab => ColorSpace::Lab,
        crate::profile::DataColorSpace::Xyz => ColorSpace::Xyz,
        crate::profile::DataColorSpace::YCbr => ColorSpace::YCbCr,
        crate::profile::DataColorSpace::Luv => ColorSpace::Luv,
        crate::profile::DataColorSpace::Hsv => ColorSpace::Hsv,
        crate::profile::DataColorSpace::Hls => ColorSpace::Hls,
        crate::profile::DataColorSpace::Cmy => ColorSpace::Cmy,
        _ => ColorSpace::Unknown,
    }
}

impl From<crate::profile::DataColorSpace> for ColorSpace {
    fn from(cs: crate::profile::DataColorSpace) -> (r: ColorSpace) {
        match cs {
            crate::profile::DataColorSpace::Rgb => ColorSpace::Rgb,
            crate::profile::DataColorSpace::Cmyk => ColorSpace::Cmyk,
            crate::profile::DataColorSpace::Gray => ColorSpace::Gray,
            crate::profile::DataColorSpace::Lab => ColorSpace::Lab,
            crate::profile::DataColorSpace::Xyz => ColorSpace::Xyz,
            crate::profile::DataColorSpace::YCbr => ColorSpace::YCbCr,
            crate::profile::DataColorSpace::Luv => ColorSpace::Luv,
            crate::profile::DataColorSpace::Hsv => ColorSpace::Hsv,
            crate::profile::DataColorSpace::Hls => ColorSpace::Hls,
            crate::profile::DataColorSpace::Cmy => ColorSpace::Cmy,
            _ => ColorSpace::Unknown,
        }
    }
}

impl vstd::std_specs::convert::FromSpecImpl<crate::profile::DataColorSpace> for ColorSpace {
    open spec fn obeys_from_spec() -> bool {
        true
    }

    open spec fn from_spec(cs: crate::profile::DataColorSpace) -> ColorSpace {
        color_space_of_data(cs)
    }
}

/// The version numbers of each version moxcms names; an unknown version reads as 0.0.0.
pub open spec fn version_of_profile_version(v: crate::profile::ProfileVersion) -> ProfileVersion {
    let (major, minor): (u8, u8) = match v {
        crate::profile::ProfileVersion::V2_0 => (2, 0),
        crate::profile::ProfileVersion::V2_1 => (2, 1),
        crate::profile::ProfileVersion::V2_2 => (2, 2),
        crate::profile::ProfileVersion::V2_3 => (2, 3),
        crate::profile::ProfileVersion::V2_4 => (2, 4),
        crate::profile::ProfileVersion::V4_0 => (4, 0),
        crate::profile::ProfileVersion::V4_1 => (4, 1),
        crate::profile::ProfileVersion::V4_2 => (4, 2),
        crate::profile::ProfileVersion::V4_3 => (4, 3),
        crate::profile::ProfileVersion::V4_4 => (4, 4),
        crate::profile::ProfileVersion::Unknown => (0, 0),
    };
    ProfileVersion { major, minor, patch: 0 }
}

impl From<crate::profile::ProfileVersion> for ProfileVersion {
    fn from(v: crate::profile::ProfileVersion) -> (r: ProfileVersion) {
        match v {
            crate::profile::ProfileVersion::V2_0 => ProfileVersion::new(2, 0, 0),
            crate::profile::ProfileVersion::V2_1 => ProfileVersion::new(2, 1, 0),
            crate::profile::ProfileVersion::V2_2 => ProfileVersion::new(2, 2, 0),
            crate::profile::ProfileVersion::V2_3 => ProfileVersion::new(2, 3, 0),
            crate::profile::ProfileVersion::V2_4 => ProfileVersion::new(2, 4, 0),
            crate::profile::ProfileVersion::V4_0 => ProfileVersion::new(4, 0, 0),
            crate::profile::ProfileVersion::V4_1 => ProfileVersion::new(4, 1, 0),
            crate::profile::ProfileVersion::V4_2 => ProfileVersion::new(4, 2, 0),
            crate::profile::ProfileVersion::V4_3 => ProfileVersion::new(4, 3, 0),
            crate::profile::ProfileVersion::V4_4 => ProfileVersion::new(4, 4, 0),
            crate::profile::ProfileVersion::Unknown => ProfileVersion::new(0, 0, 0),
        }
    }
}

impl vstd::std_specs::convert::FromSpecImpl<crate::profile::ProfileVersion> for ProfileVersion {
    open spec fn obeys_from_spec() -> bool {
        true
    }

    open spec fn from_spec(v: crate::profile::ProfileVersion) -> ProfileVersion {
        version_of_profile_version(v)
    }
}

} // verus!
