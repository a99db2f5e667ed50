//! The 128-byte ICC profile header (ICC.1:2022 section 7.2).

use vstd::prelude::*;

use super::bytes::{be_u32, be_u64, read_u32_be, read_u64_be};
use super::error::IccError;
use super::types::{date_time_at, xyz_at, DateTimeNumber, S15Fixed16, XyzNumber};

verus! {

/// Profile file signature - must be 'acsp' (0x61637370)
pub const PROFILE_SIGNATURE: u32 = 0x61637370;

/// Minimum valid profile size (header only)
pub const MIN_PROFILE_SIZE: usize = 128;

/// ICC Profile Header (128 bytes)
#[derive(Debug, Clone, PartialEq)]
pub struct IccHeader {
    /// Profile size in bytes
    pub size: u32,
    /// Preferred CMM type signature
    pub cmm_type: u32,
    /// Profile version (major.minor.0.0)
    pub version: ProfileVersion,
    /// Device class (display, input, output, etc.)
    pub device_class: ProfileClass,
    /// Color space of data (RGB, CMYK, etc.)
    pub color_space: ColorSpace,
    /// Profile connection space (XYZ or Lab)
    pub pcs: ColorSpace,
    /// Date and time profile was created
    pub creation_date: DateTimeNumber,
    /// Profile file signature (must be 'acsp')
    pub signature: u32,
    /// Primary platform signature
    pub platform: u32,
    /// Profile flags
    pub flags: u32,
    /// Device manufacturer signature
    pub manufacturer: u32,
    /// Device model signature
    pub model: u32,
    /// Device attributes
    pub attributes: u64,
    /// Rendering intent
    pub rendering_intent: RenderingIntent,
    /// PCS illuminant (should be D50)
    pub illuminant: XyzNumber,
    /// Profile creator signature
    pub creator: u32,
    /// Profile ID (MD5 hash, or zero)
    pub profile_id: [u8; 16],
}

/// The version encoded in header bytes 8 and 9: major in byte 8, minor and patch in the high
/// and low nibbles of byte 9.
pub open spec fn version_of(major_byte: u8, minor_byte: u8) -> ProfileVersion {
    ProfileVersion { major: major_byte, minor: minor_byte / 16, patch: minor_byte % 16 }
}

/// The first error that header parsing meets in `data`, if any.
pub open spec fn header_error(data: Seq<u8>) -> Option<IccError> {
    if data.len() < 128 {
        Some(IccError::TooSmall { expected: 128, actual: data.len() as usize })
    } else if profile_class_of(be_u32(data, 12)) is None {
        Some(IccError::InvalidProfileClass(be_u32(data, 12)))
    } else if color_space_of(be_u32(data, 16)) is None {
        Some(IccError::InvalidColorSpace(be_u32(data, 16)))
    } else if color_space_of(be_u32(data, 20)) is None {
        Some(IccError::InvalidColorSpace(be_u32(data, 20)))
    } else if be_u32(data, 36) != PROFILE_SIGNATURE {
        Some(IccError::InvalidSignature(be_u32(data, 36)))
    } else if rendering_intent_of(be_u32(data, 64)) is None {
        Some(IccError::InvalidRenderingIntent(be_u32(data, 64)))
    } else {
        None
    }
}

/// `h` holds the header fields that `data` stores at their ICC offsets.
pub open spec fn header_matches(h: IccHeader, data: Seq<u8>) -> bool {
    &&& h.size == be_u32(data, 0)
    &&& h.cmm_type == be_u32(data, 4)
    &&& h.version == version_of(data[8], data[9])
    &&& profile_class_of(be_u32(data, 12)) == Some(h.device_class)
    &&& color_space_of(be_u32(data, 16)) == Some(h.color_space)
    &&& color_space_of(be_u32(data, 20)) == Some(h.pcs)
    &&& h.creation_date == date_time_at(data, 24)
    &&& h.signature == be_u32(data, 36)
    &&& h.platform == be_u32(data, 40)
    &&& h.flags == be_u32(data, 44)
    &&& h.manufacturer == be_u32(data, 48)
    &&& h.model == be_u32(data, 52)
    &&& h.attributes == be_u64(data, 56)
    &&& rendering_intent_of(be_u32(data, 64)) == Some(h.rendering_intent)
    &&& h.illuminant == xyz_at(data, 68)
    &&& h.creator == be_u32(data, 80)
    &&& h.profile_id@ == data.subrange(84, 100)
}

/// The device classes for which a profile may be matrix/TRC based.
pub open spec fn spec_is_matrix_shaper_header(h: IccHeader) -> bool {
    (h.device_class is Display || h.device_class is Input || h.device_class is Output)
        && h.color_space is Rgb
}

impl IccHeader {
    /// Parses the header from the first 128 bytes of `data`.
    pub fn parse(data: &[u8]) -> (r: Result<Self, IccError>)
        ensures
            match r {
                Ok(h) => header_error(data@) is None && header_matches(h, data@),
                Err(e) => header_error(data@) == Some(e),
            },
    {
        if data.len() < MIN_PROFILE_SIZE {
            return Err(IccError::TooSmall { expected: MIN_PROFILE_SIZE, actual: data.len() });
        }
        let size = read_u32_be(data, 0);
        let cmm_type = read_u32_be(data, 4);
        let version = ProfileVersion { major: data[8], minor: data[9] / 16, patch: data[9] % 16 };
        let device_class = match ProfileClass::from_u32(read_u32_be(data, 12)) {
            Ok(c) => c,
            Err(e) => return Err(e),
        };
        let color_space = match ColorSpace::from_u32(read_u32_be(data, 16)) {
            Ok(c) => c,
            Err(e) => return Err(e),
        };
        let pcs = match ColorSpace::from_u32(read_u32_be(data, 20)) {
            Ok(c) => c,
            Err(e) => return Err(e),
        };
        let creation_date = match DateTimeNumber::from_bytes(slice_range(data, 24, 36)) {
            Some(d) => d,
            None => DateTimeNumber { year: 0, month: 0, day: 0, hour: 0, minute: 0, second: 0 },
        };
        let signature = read_u32_be(data, 36);
        if signature != PROFILE_SIGNATURE {
            return Err(IccError::InvalidSignature(signature));
        }
        let platform = read_u32_be(data, 40);
        let flags = read_u32_be(data, 44);
        let manufacturer = read_u32_be(data, 48);
        let model = read_u32_be(data, 52);
        let attributes = read_u64_be(data, 56);
        let rendering_intent = match RenderingIntent::from_u32(read_u32_be(data, 64)) {
            Ok(i) => i,
            Err(e) => return Err(e),
        };
        let illuminant = match XyzNumber::from_bytes(slice_range(data, 68, 80)) {
            Some(x) => x,
            None => XyzNumber { x: S15Fixed16(0), y: S15Fixed16(0), z: S15Fixed16(0) },
        };
        let creator = read_u32_be(data, 80);
        let mut profile_id = [0u8; 16];
        let mut k: usize = 0;
        while k < 16
            invariant
                k <= 16,
                data@.len() >= 128,
                forall|j: int| 0 <= j < k ==> profile_id@[j] == data@[84 + j],
            decreases 16 - k,
        {
            profile_id[k] = data[84 + k];
            k = k + 1;
        }
        assert(profile_id@ =~= data@.subrange(84, 100));
        proof {
            assert(data@.subrange(24, 36).subrange(0, 12) =~= data@.subrange(24, 36));
        }
        Ok(
            IccHeader {
                size,
                cmm_type,
                version,
                device_class,
                color_space,
                pcs,
                creation_date,
                signature,
                platform,
                flags,
                manufacturer,
                model,
                attributes,
                rendering_intent,
                illuminant,
                creator,
                profile_id,
            },
        )
    }

    /// Checks the signature and that the size the header states fits in `data_len` bytes.
    pub fn validate(&self, data_len: usize) -> (r: Result<(), IccError>)
        ensures
            self.signature != PROFILE_SIGNATURE ==> r == Err::<(), IccError>(
                IccError::InvalidSignature(self.signature),
            ),
            self.signature == PROFILE_SIGNATURE && self.size > data_len ==> r == Err::<
                (),
                IccError,
            >(IccError::SizeMismatch { header_size: self.size, actual_size: data_len }),
            self.signature == PROFILE_SIGNATURE && self.size <= data_len ==> r is Ok,
    {
        if self.signature != PROFILE_SIGNATURE {
            return Err(IccError::InvalidSignature(self.signature));
        }
        if self.size as usize > data_len {
            return Err(IccError::SizeMismatch { header_size: self.size, actual_size: data_len });
        }
        Ok(())
    }

    /// Whether the header describes an RGB display, input or output profile.
    pub fn is_matrix_shaper(&self) -> (r: bool)
        ensures
            r == spec_is_matrix_shaper_header(*self),
    {
        matches!(self.device_class, ProfileClass::Display | ProfileClass::Input | ProfileClass::Output)
            && matches!(self.color_space, ColorSpace::Rgb)
    }

    /// The version as a tuple (major, minor, patch).
    pub fn version_tuple(&self) -> (r: (u8, u8, u8))
        ensures
            r == (self.version.major, self.version.minor, self.version.patch),
    {
        (self.version.major, self.version.minor, self.version.patch)
    }
}

/// Returns `&data[start..end]`.
pub fn slice_range(data: &[u8], start: usize, end: usize) -> (r: &[u8])
    requires
        start <= end <= data@.len(),
    ensures
        r@ == data@.subrange(start as int, end as int),
{
    let (_, tail) = data.split_at(start);
    let (mid, _) = tail.split_at(end - start);
    assert(mid@ =~= data@.subrange(start as int, end as int));
    mid
}

/// ICC Profile Version
#[derive(Debug, Clone, Copy, PartialEq, Eq, Default)]
pub struct ProfileVersion {
    pub major: u8,
    pub minor: u8,
    pub patch: u8,
}

/// Whether a version is at least `major.minor` (the patch level does not count).
pub open spec fn version_at_least(v: ProfileVersion, major: u8, minor: u8) -> bool {
    v.major > major || (v.major == major && v.minor >= minor)
}

impl ProfileVersion {
    /// Whether this version is at least `major.minor`.
    pub fn at_least(&self, major: u8, minor: u8) -> (r: bool)
        ensures
            r == version_at_least(*self, major, minor),
    {
        self.major > major || (self.major == major && self.minor >= minor)
    }

    /// Whether this is a version 4 profile.
    pub fn is_v4(&self) -> (r: bool)
        ensures
            r == (self.major == 4),
    {
        self.major == 4
    }

    /// Whether this is a version 2 profile.
    pub fn is_v2(&self) -> (r: bool)
        ensures
            r == (self.major == 2),
    {
        self.major == 2
    }
}

/// ICC Profile Class (Device Class)
#[derive(Debug, Clone, Copy, PartialEq, Eq)]
pub enum ProfileClass {
    /// Input device (scanner, camera)
    Input,
    /// Display device (monitor)
    Display,
    /// Output device (printer)
    Output,
    /// Device link
    DeviceLink,
    /// Color space conversion
    ColorSpace,
    /// Abstract profile
    Abstract,
    /// Named color profile
    NamedColor,
}

/// The signature of each profile class.
pub open spec fn profile_class_sig(c: ProfileClass) -> u32 {
    match c {
        ProfileClass::Input => 0x73636e72,  // 'scnr'
        ProfileClass::Display => 0x6d6e7472,  // 'mntr'
        ProfileClass::Output => 0x70727472,  // 'prtr'
        ProfileClass::DeviceLink => 0x6c696e6b,  // 'link'
        ProfileClass::ColorSpace => 0x73706163,  // 'spac'
        ProfileClass::Abstract => 0x61627374,  // 'abst'
        ProfileClass::NamedColor => 0x6e6d636c,  // 'nmcl'
    }
}

/// The profile class whose signature is `v`, if any.
pub open spec fn profile_class_of(v: u32) -> Option<ProfileClass> {
    if v == 0x73636e72 {
        Some(ProfileClass::Input)
    } else if v == 0x6d6e7472 {
        Some(ProfileClass::Display)
    } else if v == 0x70727472 {
        Some(ProfileClass::Output)
    } else if v == 0x6c696e6b {
        Some(ProfileClass::DeviceLink)
    } else if v == 0x73706163 {
        Some(ProfileClass::ColorSpace)
    } else if v == 0x61627374 {
        Some(ProfileClass::Abstract)
    } else if v == 0x6e6d636c {
        Some(ProfileClass::NamedColor)
    } else {
        None
    }
}

impl ProfileClass {
    /// The class whose signature is `val`; `InvalidProfileClass(val)` for any other value.
    pub fn from_u32(val: u32) -> (r: Result<Self, IccError>)
        ensures
            match profile_class_of(val) {
                Some(c) => r == Ok::<ProfileClass, IccError>(c),
                None => r == Err::<ProfileClass, IccError>(IccError::InvalidProfileClass(val)),
            },
    {
        if val == 0x73636e72 {
            Ok(ProfileClass::Input)
        } else if val == 0x6d6e7472 {
            Ok(ProfileClass::Display)
        } else if val == 0x70727472 {
            Ok(ProfileClass::Output)
        } else if val == 0x6c696e6b {
            Ok(ProfileClass::DeviceLink)
        } else if val == 0x73706163 {
            Ok(ProfileClass::ColorSpace)
        } else if val == 0x61627374 {
            Ok(ProfileClass::Abstract)
        } else if val == 0x6e6d636c {
            Ok(ProfileClass::NamedColor)
        } else {
            Err(IccError::InvalidProfileClass(val))
        }
    }

    /// The signature of this class.
    pub fn to_u32(&self) -> (r: u32)
        ensures
            r == profile_class_sig(*self),
    {
        match self {
            ProfileClass::Input => 0x73636e72,
            ProfileClass::Display => 0x6d6e7472,
            ProfileClass::Output => 0x70727472,
            ProfileClass::DeviceLink => 0x6c696e6b,
            ProfileClass::ColorSpace => 0x73706163,
            ProfileClass::Abstract => 0x61627374,
            ProfileClass::NamedColor => 0x6e6d636c,
        }
    }
}

/// ICC Color Space
#[derive(Debug, Clone, Copy, PartialEq, Eq)]
pub enum ColorSpace {
    /// XYZ
    Xyz,
    /// Lab
    Lab,
    /// Luv
    Luv,
    /// YCbCr
    YCbCr,
    /// Yxy
    Yxy,
    /// RGB
    Rgb,
    /// Grayscale
    Gray,
    /// HSV
    Hsv,
    /// HLS
    Hls,
    /// CMYK
    Cmyk,
    /// CMY
    Cmy,
    /// 2 color
    Color2,
    /// 3 color
    Color3,
    /// 4 color
    Color4,
    /// 5 color
    Color5,
    /// 6 color
    Color6,
    /// 7 color
    Color7,
    /// 8 color
    Color8,
    /// 9 color
    Color9,
    /// 10 color
    Color10,
    /// 11 color
    Color11,
    /// 12 color
    Color12,
    /// 13 color
    Color13,
    /// 14 color
    Color14,
    /// 15 color
    Color15,
}

/// The signature of each colour space.
pub open spec fn color_space_sig(c: ColorSpace) -> u32 {
    match c {
        ColorSpace::Xyz => 0x58595a20,  // 'XYZ '
        ColorSpace::Lab => 0x4c616220,  // 'Lab '
        ColorSpace::Luv => 0x4c757620,  // 'Luv '
        ColorSpace::YCbCr => 0x59436272,  // 'YCbr'
        ColorSpace::Yxy => 0x59787920,  // 'Yxy '
        ColorSpace::Rgb => 0x52474220,  // 'RGB '
        ColorSpace::Gray => 0x47524159,  // 'GRAY'
        ColorSpace::Hsv => 0x48535620,  // 'HSV '
        ColorSpace::Hls => 0x484c5320,  // 'HLS '
        ColorSpace::Cmyk => 0x434d594b,  // 'CMYK'
        ColorSpace::Cmy => 0x434d5920,  // 'CMY '
        ColorSpace::Color2 => 0x32434c52,  // '2CLR'
        ColorSpace::Color3 => 0x33434c52,
        ColorSpace::Color4 => 0x34434c52,
        ColorSpace::Color5 => 0x35434c52,
        ColorSpace::Color6 => 0x36434c52,
        ColorSpace::Color7 => 0x37434c52,
        ColorSpace::Color8 => 0x38434c52,
        ColorSpace::Color9 => 0x39434c52,
        ColorSpace::Color10 => 0x41434c52,  // 'ACLR'
        ColorSpace::Color11 => 0x42434c52,
        ColorSpace::Color12 => 0x43434c52,
        ColorSpace::Color13 => 0x44434c52,
        ColorSpace::Color14 => 0x45434c52,
        ColorSpace::Color15 => 0x46434c52,  // 'FCLR'
    }
}

/// The colour space whose signature is `v`, if any.
pub open spec fn color_space_of(v: u32) -> Option<ColorSpace> {
    if v == 0x58595a20 {
        Some(ColorSpace::Xyz)
    } else if v == 0x4c616220 {
        Some(ColorSpace::Lab)
    } else if v == 0x4c757620 {
        Some(ColorSpace::Luv)
    } else if v == 0x59436272 {
        Some(ColorSpace::YCbCr)
    } else if v == 0x59787920 {
        Some(ColorSpace::Yxy)
    } else if v == 0x52474220 {
        Some(ColorSpace::Rgb)
    } else if v == 0x47524159 {
        Some(ColorSpace::Gray)
    } else if v == 0x48535620 {
        Some(ColorSpace::Hsv)
    } else if v == 0x484c5320 {
        Some(ColorSpace::Hls)
    } else if v == 0x434d594b {
        Some(ColorSpace::Cmyk)
    } else if v == 0x434d5920 {
        Some(ColorSpace::Cmy)
    } else if v == 0x32434c52 {
        Some(ColorSpace::Color2)
    } else if v == 0x33434c52 {
        Some(ColorSpace::Color3)
    } else if v == 0x34434c52 {
        Some(ColorSpace::Color4)
    } else if v == 0x35434c52 {
        Some(ColorSpace::Color5)
    } else if v == 0x36434c52 {
        Some(ColorSpace::Color6)
    } else if v == 0x37434c52 {
        Some(ColorSpace::Color7)
    } else if v == 0x38434c52 {
        Some(ColorSpace::Color8)
    } else if v == 0x39434c52 {
        Some(ColorSpace::Color9)
    } else if v == 0x41434c52 {
        Some(ColorSpace::Color10)
    } else if v == 0x42434c52 {
        Some(ColorSpace::Color11)
    } else if v == 0x43434c52 {
        Some(ColorSpace::Color12)
    } else if v == 0x44434c52 {
        Some(ColorSpace::Color13)
    } else if v == 0x45434c52 {
        Some(ColorSpace::Color14)
    } else if v == 0x46434c52 {
        Some(ColorSpace::Color15)
    } else {
        None
    }
}

/// The number of channels of each colour space.
pub open spec fn color_space_channels(c: ColorSpace) -> nat {
    match c {
        ColorSpace::Gray => 1,
        ColorSpace::Color2 => 2,
        ColorSpace::Xyz | ColorSpace::Lab | ColorSpace::Luv | ColorSpace::YCbCr | ColorSpace::Yxy
        | ColorSpace::Rgb | ColorSpace::Hsv | ColorSpace::Hls | ColorSpace::Cmy
        | ColorSpace::Color3 => 3,
        ColorSpace::Cmyk | ColorSpace::Color4 => 4,
        ColorSpace::Color5 => 5,
        ColorSpace::Color6 => 6,
        ColorSpace::Color7 => 7,
        ColorSpace::Color8 => 8,
        ColorSpace::Color9 => 9,
        ColorSpace::Color10 => 10,
        ColorSpace::Color11 => 11,
        ColorSpace::Color12 => 12,
        ColorSpace::Color13 => 13,
        ColorSpace::Color14 => 14,
        ColorSpace::Color15 => 15,
    }
}

impl ColorSpace {
    /// The colour space whose signature is `val`; `InvalidColorSpace(val)` for any other value.
    pub fn from_u32(val: u32) -> (r: Result<Self, IccError>)
        ensures
            match color_space_of(val) {
                Some(c) => r == Ok::<ColorSpace, IccError>(c),
                None => r == Err::<ColorSpace, IccError>(IccError::InvalidColorSpace(val)),
            },
    {
        if val == 0x58595a20 {
            Ok(ColorSpace::Xyz)
        } else if val == 0x4c616220 {
            Ok(ColorSpace::Lab)
        } else if val == 0x4c757620 {
            Ok(ColorSpace::Luv)
        } else if val == 0x59436272 {
            Ok(ColorSpace::YCbCr)
        } else if val == 0x59787920 {
            Ok(ColorSpace::Yxy)
        } else if val == 0x52474220 {
            Ok(ColorSpace::Rgb)
        } else if val == 0x47524159 {
            Ok(ColorSpace::Gray)
        } else if val == 0x48535620 {
            Ok(ColorSpace::Hsv)
        } else if val == 0x484c5320 {
            Ok(ColorSpace::Hls)
        } else if val == 0x434d594b {
            Ok(ColorSpace::Cmyk)
        } else if val == 0x434d5920 {
            Ok(ColorSpace::Cmy)
        } else if val == 0x32434c52 {
            Ok(ColorSpace::Color2)
        } else if val == 0x33434c52 {
            Ok(ColorSpace::Color3)
        } else if val == 0x34434c52 {
            Ok(ColorSpace::Color4)
        } else if val == 0x35434c52 {
            Ok(ColorSpace::Color5)
        } else if val == 0x36434c52 {
            Ok(ColorSpace::Color6)
        } else if val == 0x37434c52 {
            Ok(ColorSpace::Color7)
        } else if val == 0x38434c52 {
            Ok(ColorSpace::Color8)
        } else if val == 0x39434c52 {
            Ok(ColorSpace::Color9)
        } else if val == 0x41434c52 {
            Ok(ColorSpace::Color10)
        } else if val == 0x42434c52 {
            Ok(ColorSpace::Color11)
        } else if val == 0x43434c52 {
            Ok(ColorSpace::Color12)
        } else if val == 0x44434c52 {
            Ok(ColorSpace::Color13)
        } else if val == 0x45434c52 {
            Ok(ColorSpace::Color14)
        } else if val == 0x46434c52 {
            Ok(ColorSpace::Color15)
        } else {
            Err(IccError::InvalidColorSpace(val))
        }
    }

    /// The signature of this colour space.
    pub fn to_u32(&self) -> (r: u32)
        ensures
            r == color_space_sig(*self),
    {
        match self {
            ColorSpace::Xyz => 0x58595a20,
            ColorSpace::Lab => 0x4c616220,
            ColorSpace::Luv => 0x4c757620,
            ColorSpace::YCbCr => 0x59436272,
            ColorSpace::Yxy => 0x59787920,
            ColorSpace::Rgb => 0x52474220,
            ColorSpace::Gray => 0x47524159,
            ColorSpace::Hsv => 0x48535620,
            ColorSpace::Hls => 0x484c5320,
            ColorSpace::Cmyk => 0x434d594b,
            ColorSpace::Cmy => 0x434d5920,
            ColorSpace::Color2 => 0x32434c52,
            ColorSpace::Color3 => 0x33434c52,
            ColorSpace::Color4 => 0x34434c52,
            ColorSpace::Color5 => 0x35434c52,
            ColorSpace::Color6 => 0x36434c52,
            ColorSpace::Color7 => 0x37434c52,
            ColorSpace::Color8 => 0x38434c52,
            ColorSpace::Color9 => 0x39434c52,
            ColorSpace::Color10 => 0x41434c52,
            ColorSpace::Color11 => 0x42434c52,
            ColorSpace::Color12 => 0x43434c52,
            ColorSpace::Color13 => 0x44434c52,
            ColorSpace::Color14 => 0x45434c52,
            ColorSpace::Color15 => 0x46434c52,
        }
    }

    /// The number of channels of this colour space.
    pub fn channels(&self) -> (r: usize)
        ensures
            r == color_space_channels(*self),
    {
        match self {
            ColorSpace::Gray => 1,
            ColorSpace::Color2 => 2,
            ColorSpace::Xyz | ColorSpace::Lab | ColorSpace::Luv | ColorSpace::YCbCr
            | ColorSpace::Yxy | ColorSpace::Rgb | ColorSpace::Hsv | ColorSpace::Hls
            | ColorSpace::Cmy | ColorSpace::Color3 => 3,
            ColorSpace::Cmyk | ColorSpace::Color4 => 4,
            ColorSpace::Color5 => 5,
            ColorSpace::Color6 => 6,
            ColorSpace::Color7 => 7,
            ColorSpace::Color8 => 8,
            ColorSpace::Color9 => 9,
            ColorSpace::Color10 => 10,
            ColorSpace::Color11 => 11,
            ColorSpace::Color12 => 12,
            ColorSpace::Color13 => 13,
            ColorSpace::Color14 => 14,
            ColorSpace::Color15 => 15,
        }
    }
}

/// ICC Rendering Intent
#[derive(Debug, Clone, Copy, PartialEq, Eq, Default)]
pub enum RenderingIntent {
    /// Perceptual - best for photographs
    #[default]
    Perceptual,
    /// Relative colorimetric - preserves in-gamut colors
    RelativeColorimetric,
    /// Saturation - maintains saturation
    Saturation,
    /// Absolute colorimetric - preserves white point
    AbsoluteColorimetric,
}

/// The header value of each rendering intent.
pub open spec fn rendering_intent_value(i: RenderingIntent) -> u32 {
    match i {
        RenderingIntent::Perceptual => 0,
        RenderingIntent::RelativeColorimetric => 1,
        RenderingIntent::Saturation => 2,
        RenderingIntent::AbsoluteColorimetric => 3,
    }
}

/// The rendering intent whose header value is `v`, if any.
pub open spec fn rendering_intent_of(v: u32) -> Option<RenderingIntent> {
    if v == 0 {
        Some(RenderingIntent::Perceptual)
    } else if v == 1 {
        Some(RenderingIntent::RelativeColorimetric)
    } else if v == 2 {
        Some(RenderingIntent::Saturation)
    } else if v == 3 {
        Some(RenderingIntent::AbsoluteColorimetric)
    } else {
        None
    }
}

impl RenderingIntent {
    /// The intent whose header value is `val`; `InvalidRenderingIntent(val)` above 3.
    pub fn from_u32(val: u32) -> (r: Result<Self, IccError>)
        ensures
            match rendering_intent_of(val) {
                Some(i) => r == Ok::<RenderingIntent, IccError>(i),
                None => r == Err::<RenderingIntent, IccError>(
                    IccError::InvalidRenderingIntent(val),
                ),
            },
    {
        if val == 0 {
            Ok(RenderingIntent::Perceptual)
        } else if val == 1 {
            Ok(RenderingIntent::RelativeColorimetric)
        } else if val == 2 {
            Ok(RenderingIntent::Saturation)
        } else if val == 3 {
            Ok(RenderingIntent::AbsoluteColorimetric)
        } else {
            Err(IccError::InvalidRenderingIntent(val))
        }
    }

    /// The header value of this intent.
    pub fn to_u32(&self) -> (r: u32)
        ensures
            r == rendering_intent_value(*self),
    {
        match self {
            RenderingIntent::Perceptual => 0,
            RenderingIntent::RelativeColorimetric => 1,
            RenderingIntent::Saturation => 2,
            RenderingIntent::AbsoluteColorimetric => 3,
        }
    }
}

/// Every profile class is read back from its own signature.
pub proof fn profile_class_signature_roundtrip(c: ProfileClass)
    ensures
        profile_class_of(profile_class_sig(c)) == Some(c),
{
}

/// A value read as a profile class is that class's signature: no two classes share one.
pub proof fn profile_class_signature_exact(v: u32)
    ensures
        profile_class_of(v) matches Some(c) ==> profile_class_sig(c) == v,
{
}

/// Every colour space is read back from its own signature.
pub proof fn color_space_signature_roundtrip(c: ColorSpace)
    ensures
        color_space_of(color_space_sig(c)) == Some(c),
{
}

/// A value read as a colour space is that colour space's signature.
pub proof fn color_space_signature_exact(v: u32)
    ensures
        color_space_of(v) matches Some(c) ==> color_space_sig(c) == v,
{
}

/// Every rendering intent is read back from its own header value.
pub proof fn rendering_intent_value_roundtrip(i: RenderingIntent)
    ensures
        rendering_intent_of(rendering_intent_value(i)) == Some(i),
{
}

/// The header values of rendering intents are exactly 0 to 3, each read as the intent
/// whose value it is.
pub proof fn rendering_intent_value_exact(v: u32)
    ensures
        rendering_intent_of(v) is Some <==> v <= 3,
        rendering_intent_of(v) matches Some(i) ==> rendering_intent_value(i) == v,
{
}

/// A version is at least its own major.minor, and a version that is at least `major.minor`
/// is at least every earlier `major.minor`.
pub proof fn version_at_least_is_an_order(v: ProfileVersion, major: u8, minor: u8, earlier_major: u8, earlier_minor: u8)
    ensures
        version_at_least(v, v.major, v.minor),
        version_at_least(v, major, minor) && (earlier_major < major || (earlier_major == major
            && earlier_minor <= minor)) ==> version_at_least(v, earlier_major, earlier_minor),
{
}

/// An RGB input (camera, scanner), display or output profile is a matrix/shaper candidate,
/// and a profile of any other class or colour space is not.
pub proof fn matrix_shaper_classes(h: IccHeader)
    ensures
        h.color_space == ColorSpace::Rgb && h.device_class == ProfileClass::Input
            ==> spec_is_matrix_shaper_header(h),
        h.color_space == ColorSpace::Rgb && h.device_class == ProfileClass::Display
            ==> spec_is_matrix_shaper_header(h),
        h.color_space == ColorSpace::Rgb && h.device_class == ProfileClass::Output
            ==> spec_is_matrix_shaper_header(h),
        h.color_space != ColorSpace::Rgb ==> !spec_is_matrix_shaper_header(h),
        h.device_class == ProfileClass::DeviceLink ==> !spec_is_matrix_shaper_header(h),
        h.device_class == ProfileClass::ColorSpace ==> !spec_is_matrix_shaper_header(h),
        h.device_class == ProfileClass::Abstract ==> !spec_is_matrix_shaper_header(h),
        h.device_class == ProfileClass::NamedColor ==> !spec_is_matrix_shaper_header(h),
{
}

/// A header read from bytes whose colour space is 'RGB ' and whose class is 'scnr', 'mntr'
/// or 'prtr' describes a matrix/shaper candidate.
pub proof fn rgb_device_header_bytes_are_matrix_shaper(h: IccHeader, data: Seq<u8>)
    requires
        header_matches(h, data),
        be_u32(data, 16) == 0x52474220,
        be_u32(data, 12) == 0x73636e72 || be_u32(data, 12) == 0x6d6e7472 || be_u32(data, 12)
            == 0x70727472,
    ensures
        spec_is_matrix_shaper_header(h),
{
}

/// The 32-bit signature spelled by four ASCII characters, the first in the high byte.
pub open spec fn four_cc(s: Seq<char>) -> u32 {
    (s[0] as int * 0x100_0000 + s[1] as int * 0x1_0000 + s[2] as int * 0x100 + s[3] as int) as u32
}

/// Each ICC profile class is read from the four letters of its ICC signature.
pub proof fn profile_classes_are_read_from_their_letters()
    ensures
        profile_class_of(four_cc(seq!['s', 'c', 'n', 'r'])) == Some(ProfileClass::Input),
        profile_class_of(four_cc(seq!['m', 'n', 't', 'r'])) == Some(ProfileClass::Display),
        profile_class_of(four_cc(seq!['p', 'r', 't', 'r'])) == Some(ProfileClass::Output),
        profile_class_of(four_cc(seq!['l', 'i', 'n', 'k'])) == Some(ProfileClass::DeviceLink),
        profile_class_of(four_cc(seq!['s', 'p', 'a', 'c'])) == Some(ProfileClass::ColorSpace),
        profile_class_of(four_cc(seq!['a', 'b', 's', 't'])) == Some(ProfileClass::Abstract),
        profile_class_of(four_cc(seq!['n', 'm', 'c', 'l'])) == Some(ProfileClass::NamedColor),
{
}

/// Each ICC colour space is read from the four letters of its ICC signature.
pub proof fn color_spaces_are_read_from_their_letters()
    ensures
        color_space_of(four_cc(seq!['X', 'Y', 'Z', ' '])) == Some(ColorSpace::Xyz),
        color_space_of(four_cc(seq!['L', 'a', 'b', ' '])) == Some(ColorSpace::Lab),
        color_space_of(four_cc(seq!['L', 'u', 'v', ' '])) == Some(ColorSpace::Luv),
        color_space_of(four_cc(seq!['Y', 'C', 'b', 'r'])) == Some(ColorSpace::YCbCr),
        color_space_of(four_cc(seq!['Y', 'x', 'y', ' '])) == Some(ColorSpace::Yxy),
        color_space_of(four_cc(seq!['R', 'G', 'B', ' '])) == Some(ColorSpace::Rgb),
        color_space_of(four_cc(seq!['G', 'R', 'A', 'Y'])) == Some(ColorSpace::Gray),
        color_space_of(four_cc(seq!['H', 'S', 'V', ' '])) == Some(ColorSpace::Hsv),
        color_space_of(four_cc(seq!['H', 'L', 'S', ' '])) == Some(ColorSpace::Hls),
        color_space_of(four_cc(seq!['C', 'M', 'Y', 'K'])) == Some(ColorSpace::Cmyk),
        color_space_of(four_cc(seq!['C', 'M', 'Y', ' '])) == Some(ColorSpace::Cmy),
        color_space_of(four_cc(seq!['2', 'C', 'L', 'R'])) == Some(ColorSpace::Color2),
        color_space_of(four_cc(seq!['3', 'C', 'L', 'R'])) == Some(ColorSpace::Color3),
        color_space_of(four_cc(seq!['4', 'C', 'L', 'R'])) == Some(ColorSpace::Color4),
        color_space_of(four_cc(seq!['5', 'C', 'L', 'R'])) == Some(ColorSpace::Color5),
        color_space_of(four_cc(seq!['6', 'C', 'L', 'R'])) == Some(ColorSpace::Color6),
        color_space_of(four_cc(seq!['7', 'C', 'L', 'R'])) == Some(ColorSpace::Color7),
        color_space_of(four_cc(seq!['8', 'C', 'L', 'R'])) == Some(ColorSpace::Color8),
        color_space_of(four_cc(seq!['9', 'C', 'L', 'R'])) == Some(ColorSpace::Color9),
        color_space_of(four_cc(seq!['A', 'C', 'L', 'R'])) == Some(ColorSpace::Color10),
        color_space_of(four_cc(seq!['B', 'C', 'L', 'R'])) == Some(ColorSpace::Color11),
        color_space_of(four_cc(seq!['C', 'C', 'L', 'R'])) == Some(ColorSpace::Color12),
        color_space_of(four_cc(seq!['D', 'C', 'L', 'R'])) == Some(ColorSpace::Color13),
        color_space_of(four_cc(seq!['E', 'C', 'L', 'R'])) == Some(ColorSpace::Color14),
        color_space_of(four_cc(seq!['F', 'C', 'L', 'R'])) == Some(ColorSpace::Color15),
{
}

/// The version bytes of a header hold the major version, then the minor version in the high
/// nibble and the bug-fix version in the low nibble: the three parts give the two bytes back.
pub proof fn version_parts_are_the_byte_nibbles(major_byte: u8, minor_byte: u8)
    ensures
        version_of(major_byte, minor_byte).major == major_byte,
        version_of(major_byte, minor_byte).minor * 16 + version_of(major_byte, minor_byte).patch
            == minor_byte,
        version_of(major_byte, minor_byte).patch < 16,
{
}

/// The ICC rendering intent numbers: 0 perceptual, 1 media-relative colorimetric,
/// 2 saturation, 3 ICC-absolute colorimetric; no other number is an intent.
pub proof fn rendering_intent_numbers(v: u32)
    ensures
        rendering_intent_of(0) == Some(RenderingIntent::Perceptual),
        rendering_intent_of(1) == Some(RenderingIntent::RelativeColorimetric),
        rendering_intent_of(2) == Some(RenderingIntent::Saturation),
        rendering_intent_of(3) == Some(RenderingIntent::AbsoluteColorimetric),
        v > 3 ==> rendering_intent_of(v) is None,
{
}

} // verus!
