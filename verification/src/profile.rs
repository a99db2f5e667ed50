//! ICC colour profiles backed by moxcms.
//!
//! A [`ColorProfile`] holds the moxcms profile, which does the colour work, next
//! to the plain values that this library reads from it: colour space,
//! connection space, class, rendering intent, version, whether it is a
//! matrix-shaper profile, and its description and copyright texts.

use vstd::prelude::*;

use crate::error::{Error, Result};
use crate::icc::bytes::be_u32;
use crate::icc::header::{
    color_space_of, profile_class_of, ColorSpace as IccColorSpace, ProfileClass as IccProfileClass,
};
use crate::icc::tags::text::clone_string;
use crate::transform::RenderingIntent;
use crate::types::ProfileClass;

use moxcms::ColorProfile as MoxProfile;
use moxcms::ProfileText as MoxText;

verus! {

/// `moxcms::ColorProfile`, the parsed profile that transforms are built from.
#[verifier::external_type_specification]
#[verifier::external_body]
pub struct ExMoxColorProfile(MoxProfile);

/// Cloning a moxcms profile (a derived `Clone`) gives an equal profile.
pub assume_specification[ <MoxProfile as std::clone::Clone>::clone ](p: &MoxProfile) -> (r:
    MoxProfile)
    ensures
        r == *p,
;

/// `moxcms::CicpProfile`, a set of coding-independent code points.
#[verifier::external_type_specification]
#[verifier::external_body]
pub struct ExMoxCicpProfile(moxcms::CicpProfile);

/// Colour space of profile data or of a profile connection space, in the order
/// of the ICC colour space signatures that moxcms knows.
#[derive(Debug, Clone, Copy, PartialEq, Eq, Structural)]
pub enum DataColorSpace {
    Xyz,
    Lab,
    Luv,
    YCbr,
    Yxy,
    Rgb,
    Gray,
    Hsv,
    Hls,
    Cmyk,
    Cmy,
    Color2,
    Color3,
    Color4,
    Color5,
    Color6,
    Color7,
    Color8,
    Color9,
    Color10,
    Color11,
    Color12,
    Color13,
    Color14,
    Color15,
}

/// The colour space at a position of the list of colour spaces.
pub open spec fn color_space_at(i: u32) -> DataColorSpace {
    if i == 0 { DataColorSpace::Xyz }
    else if i == 1 { DataColorSpace::Lab }
    else if i == 2 { DataColorSpace::Luv }
    else if i == 3 { DataColorSpace::YCbr }
    else if i == 4 { DataColorSpace::Yxy }
    else if i == 5 { DataColorSpace::Rgb }
    else if i == 6 { DataColorSpace::Gray }
    else if i == 7 { DataColorSpace::Hsv }
    else if i == 8 { DataColorSpace::Hls }
    else if i == 9 { DataColorSpace::Cmyk }
    else if i == 10 { DataColorSpace::Cmy }
    else if i == 11 { DataColorSpace::Color2 }
    else if i == 12 { DataColorSpace::Color3 }
    else if i == 13 { DataColorSpace::Color4 }
    else if i == 14 { DataColorSpace::Color5 }
    else if i == 15 { DataColorSpace::Color6 }
    else if i == 16 { DataColorSpace::Color7 }
    else if i == 17 { DataColorSpace::Color8 }
    else if i == 18 { DataColorSpace::Color9 }
    else if i == 19 { DataColorSpace::Color10 }
    else if i == 20 { DataColorSpace::Color11 }
    else if i == 21 { DataColorSpace::Color12 }
    else if i == 22 { DataColorSpace::Color13 }
    else if i == 23 { DataColorSpace::Color14 }
    else { DataColorSpace::Color15 }
}

/// The colour space at position `i` of the list of colour spaces.
pub fn color_space_from_position(i: u32) -> (r: DataColorSpace)
    ensures
        r == color_space_at(i),
{
    if i == 0 { DataColorSpace::Xyz }
    else if i == 1 { DataColorSpace::Lab }
    else if i == 2 { DataColorSpace::Luv }
    else if i == 3 { DataColorSpace::YCbr }
    else if i == 4 { DataColorSpace::Yxy }
    else if i == 5 { DataColorSpace::Rgb }
    else if i == 6 { DataColorSpace::Gray }
    else if i == 7 { DataColorSpace::Hsv }
    else if i == 8 { DataColorSpace::Hls }
    else if i == 9 { DataColorSpace::Cmyk }
    else if i == 10 { DataColorSpace::Cmy }
    else if i == 11 { DataColorSpace::Color2 }
    else if i == 12 { DataColorSpace::Color3 }
    else if i == 13 { DataColorSpace::Color4 }
    else if i == 14 { DataColorSpace::Color5 }
    else if i == 15 { DataColorSpace::Color6 }
    else if i == 16 { DataColorSpace::Color7 }
    else if i == 17 { DataColorSpace::Color8 }
    else if i == 18 { DataColorSpace::Color9 }
    else if i == 19 { DataColorSpace::Color10 }
    else if i == 20 { DataColorSpace::Color11 }
    else if i == 21 { DataColorSpace::Color12 }
    else if i == 22 { DataColorSpace::Color13 }
    else if i == 23 { DataColorSpace::Color14 }
    else { DataColorSpace::Color15 }
}

/// The profile class at a position of the list of classes (input, display,
/// output, device link, colour space, abstract, named colour).
pub open spec fn class_at(i: u32) -> ProfileClass {
    if i == 0 { ProfileClass::Input }
    else if i == 1 { ProfileClass::Display }
    else if i == 2 { ProfileClass::Output }
    else if i == 3 { ProfileClass::DeviceLink }
    else if i == 4 { ProfileClass::ColorSpace }
    else if i == 5 { ProfileClass::Abstract }
    else { ProfileClass::NamedColor }
}

/// The profile class at position `i` of the list of classes.
pub fn class_from_position(i: u32) -> (r: ProfileClass)
    ensures
        r == class_at(i),
{
    if i == 0 { ProfileClass::Input }
    else if i == 1 { ProfileClass::Display }
    else if i == 2 { ProfileClass::Output }
    else if i == 3 { ProfileClass::DeviceLink }
    else if i == 4 { ProfileClass::ColorSpace }
    else if i == 5 { ProfileClass::Abstract }
    else { ProfileClass::NamedColor }
}

/// The rendering intent of an ICC intent number (0 to 3).
pub open spec fn intent_of_number(n: u32) -> RenderingIntent {
    if n == 0 { RenderingIntent::Perceptual }
    else if n == 1 { RenderingIntent::RelativeColorimetric }
    else if n == 2 { RenderingIntent::Saturation }
    else { RenderingIntent::AbsoluteColorimetric }
}

/// The rendering intent of ICC intent number `n` (numbers above 3 read as absolute).
pub fn intent_from_number(n: u32) -> (r: RenderingIntent)
    ensures
        r == intent_of_number(n),
{
    if n == 0 { RenderingIntent::Perceptual }
    else if n == 1 { RenderingIntent::RelativeColorimetric }
    else if n == 2 { RenderingIntent::Saturation }
    else { RenderingIntent::AbsoluteColorimetric }
}

/// Profile version as moxcms reports it.
#[derive(Debug, Clone, Copy, PartialEq, Eq, Structural)]
pub enum ProfileVersion {
    V2_0,
    V2_1,
    V2_2,
    V2_3,
    V2_4,
    V4_0,
    V4_1,
    V4_2,
    V4_3,
    V4_4,
    /// A version that moxcms does not name
    Unknown,
}

/// The version of an ICC version code (`0xMMmm0000`).
pub open spec fn version_of_code(c: u32) -> ProfileVersion {
    if c == 0x0200_0000 { ProfileVersion::V2_0 }
    else if c == 0x0210_0000 { ProfileVersion::V2_1 }
    else if c == 0x0220_0000 { ProfileVersion::V2_2 }
    else if c == 0x0230_0000 { ProfileVersion::V2_3 }
    else if c == 0x0240_0000 { ProfileVersion::V2_4 }
    else if c == 0x0400_0000 { ProfileVersion::V4_0 }
    else if c == 0x0410_0000 { ProfileVersion::V4_1 }
    else if c == 0x0420_0000 { ProfileVersion::V4_2 }
    else if c == 0x0430_0000 { ProfileVersion::V4_3 }
    else if c == 0x0440_0000 { ProfileVersion::V4_4 }
    else { ProfileVersion::Unknown }
}

/// The version of ICC version code `c`.
pub fn version_from_code(c: u32) -> (r: ProfileVersion)
    ensures
        r == version_of_code(c),
{
    if c == 0x0200_0000 { ProfileVersion::V2_0 }
    else if c == 0x0210_0000 { ProfileVersion::V2_1 }
    else if c == 0x0220_0000 { ProfileVersion::V2_2 }
    else if c == 0x0230_0000 { ProfileVersion::V2_3 }
    else if c == 0x0240_0000 { ProfileVersion::V2_4 }
    else if c == 0x0400_0000 { ProfileVersion::V4_0 }
    else if c == 0x0410_0000 { ProfileVersion::V4_1 }
    else if c == 0x0420_0000 { ProfileVersion::V4_2 }
    else if c == 0x0430_0000 { ProfileVersion::V4_3 }
    else if c == 0x0440_0000 { ProfileVersion::V4_4 }
    else { ProfileVersion::Unknown }
}

/// A text of a profile (description, copyright).
#[derive(Debug, Clone)]
pub enum ProfileText {
    /// A plain ASCII text
    PlainString(String),
    /// The values of a multi-localized text, in their stored order
    Localizable(Vec<String>),
    /// The ASCII part of a text description
    Description(String),
}

/// The text that a profile text reads as: the plain or ASCII string, or the first
/// localized value (empty when there is none).
pub open spec fn text_value(t: ProfileText) -> Seq<char> {
    match t {
        ProfileText::PlainString(s) => s@,
        ProfileText::Localizable(v) => if v@.len() > 0 { v@[0]@ } else { Seq::empty() },
        ProfileText::Description(s) => s@,
    }
}

/// The text that a profile text reads as.
pub fn profile_text_value(t: &ProfileText) -> (r: String)
    ensures
        r@ == text_value(*t),
{
    match t {
        ProfileText::PlainString(s) => clone_string(s),
        ProfileText::Localizable(v) => {
            if v.len() > 0 {
                clone_string(&v[0])
            } else {
                String::new()
            }
        },
        ProfileText::Description(s) => clone_string(s),
    }
}

/// A profile text as mathematical values.
pub enum TextView {
    /// A plain ASCII text
    PlainString(Seq<char>),
    /// The localized values, in their stored order
    Localizable(Seq<Seq<char>>),
    /// The ASCII part of a text description
    Description(Seq<char>),
}

impl View for ProfileText {
    type V = TextView;

    open spec fn view(&self) -> TextView {
        match self {
            ProfileText::PlainString(s) => TextView::PlainString(s@),
            ProfileText::Localizable(v) => TextView::Localizable(v@.map_values(|s: String| s@)),
            ProfileText::Description(s) => TextView::Description(s@),
        }
    }
}

/// An optional profile text as mathematical values.
pub open spec fn opt_text_view(t: Option<ProfileText>) -> Option<TextView> {
    match t {
        Some(t) => Some(t@),
        None => None,
    }
}

/// A text made of one localized value.
pub open spec fn localized_text(s: Seq<char>) -> Option<TextView> {
    Some(TextView::Localizable(seq![s]))
}

/// What the library reads from a moxcms profile beside its header values, as mathematical
/// values: whether it is a matrix-shaper profile, and its description and copyright texts.
pub struct ReadingView {
    pub matrix_shaper: bool,
    pub description: Option<TextView>,
    pub copyright: Option<TextView>,
}

/// What the library reads from a moxcms profile: its header fields, whether it is a
/// matrix-shaper profile, and its description and copyright texts.
#[derive(Debug, Clone)]
pub struct ProfileReading {
    pub fields: HeaderFields,
    pub matrix_shaper: bool,
    pub description: Option<ProfileText>,
    pub copyright: Option<ProfileText>,
}

impl View for ProfileReading {
    type V = ReadingView;

    open spec fn view(&self) -> ReadingView {
        ReadingView {
            matrix_shaper: self.matrix_shaper,
            description: opt_text_view(self.description),
            copyright: opt_text_view(self.copyright),
        }
    }
}

/// The reading of a built-in moxcms profile: matrix-shaper flag `matrix_shaper`, the
/// description `name` and the copyright "Public Domain", each as one localized value.
pub open spec fn builtin_reading(name: Seq<char>, matrix_shaper: bool) -> ReadingView {
    ReadingView {
        matrix_shaper,
        description: localized_text(name),
        copyright: localized_text("Public Domain"@),
    }
}

/// What moxcms makes of a byte string handed to `ColorProfile::new_from_slice`: the
/// reading of the profile where it accepts the bytes, else the debug text of its error.
pub uninterp spec fn moxcms_parse(data: Seq<u8>) -> core::result::Result<ReadingView, Seq<char>>;

/// The header fields of a moxcms profile, each enum by its discriminant: the data colour
/// space and connection space by their position in `DataColorSpace` (25 variants), the
/// class by its position in `ProfileClass` (7 variants), the rendering intent by its ICC
/// number (0 to 3), and the version by its `ProfileVersion` discriminant (the ICC version
/// code of a named version).
#[derive(Debug, Clone, Copy)]
pub struct HeaderFields {
    pub color_space: u32,
    pub pcs: u32,
    pub class: u32,
    pub intent: u32,
    pub version: u32,
}

/// Header fields in the ranges of their enums.
pub open spec fn fields_in_range(f: HeaderFields) -> bool {
    f.color_space < 25 && f.pcs < 25 && f.class < 7 && f.intent < 4
}

/// The header fields of the built-in RGB profiles: RGB data, XYZ connection space, display
/// class, perceptual intent, version 4.4.
pub open spec fn rgb_display_fields(f: HeaderFields) -> bool {
    f.color_space == 5 && f.pcs == 0 && f.class == 1 && f.intent == 0 && f.version == 0x0440_0000
}

/// The position of each ICC colour space in moxcms's `DataColorSpace`, which lists them in
/// the same order.
pub open spec fn space_position(c: IccColorSpace) -> u32 {
    match c {
        IccColorSpace::Xyz => 0,
        IccColorSpace::Lab => 1,
        IccColorSpace::Luv => 2,
        IccColorSpace::YCbCr => 3,
        IccColorSpace::Yxy => 4,
        IccColorSpace::Rgb => 5,
        IccColorSpace::Gray => 6,
        IccColorSpace::Hsv => 7,
        IccColorSpace::Hls => 8,
        IccColorSpace::Cmyk => 9,
        IccColorSpace::Cmy => 10,
        IccColorSpace::Color2 => 11,
        IccColorSpace::Color3 => 12,
        IccColorSpace::Color4 => 13,
        IccColorSpace::Color5 => 14,
        IccColorSpace::Color6 => 15,
        IccColorSpace::Color7 => 16,
        IccColorSpace::Color8 => 17,
        IccColorSpace::Color9 => 18,
        IccColorSpace::Color10 => 19,
        IccColorSpace::Color11 => 20,
        IccColorSpace::Color12 => 21,
        IccColorSpace::Color13 => 22,
        IccColorSpace::Color14 => 23,
        IccColorSpace::Color15 => 24,
    }
}

/// The position in moxcms's `DataColorSpace` of the colour space whose signature is `v`
/// (25 where no colour space has it).
pub open spec fn space_position_of_sig(v: u32) -> u32 {
    match color_space_of(v) {
        Some(c) => space_position(c),
        None => 25,
    }
}

/// The position in moxcms's `ProfileClass` of the class whose signature is `v` (7 where no
/// class has it); moxcms lists the classes in the ICC order.
pub open spec fn class_position_of_sig(v: u32) -> u32 {
    match profile_class_of(v) {
        Some(IccProfileClass::Input) => 0,
        Some(IccProfileClass::Display) => 1,
        Some(IccProfileClass::Output) => 2,
        Some(IccProfileClass::DeviceLink) => 3,
        Some(IccProfileClass::ColorSpace) => 4,
        Some(IccProfileClass::Abstract) => 5,
        Some(IccProfileClass::NamedColor) => 6,
        None => 7,
    }
}

/// The version code moxcms keeps for a header version code: it reads 4.4 as 4.3 and keeps
/// the other named codes.
pub open spec fn moxcms_version_read(code: u32) -> u32 {
    if code == 0x0440_0000 {
        0x0430_0000
    } else {
        code
    }
}

/// The header fields that moxcms takes from the first bytes of a profile: data colour space
/// at 16, connection space at 20, class at 12, rendering intent at 64, version at 8.
pub open spec fn header_fields_of(data: Seq<u8>, f: HeaderFields) -> bool {
    &&& f.color_space == space_position_of_sig(be_u32(data, 16))
    &&& f.pcs == space_position_of_sig(be_u32(data, 20))
    &&& f.class == class_position_of_sig(be_u32(data, 12))
    &&& f.intent == be_u32(data, 64)
    &&& f.version == moxcms_version_read(be_u32(data, 8))
}

/// `moxcms::ProfileText`, a text of a moxcms profile.
#[verifier::external_type_specification]
#[verifier::external_body]
pub struct ExMoxProfileText(MoxText);

/// Converts a moxcms profile text, each variant to the same variant here (localized
/// entries to their values, a description to its ASCII part).
#[verifier::external_body]
fn convert_text(t: &Option<MoxText>) -> Option<ProfileText> {
    match t {
        None => None,
        Some(MoxText::PlainString(s)) => Some(ProfileText::PlainString(s.clone())),
        Some(MoxText::Localizable(v)) => Some(
            ProfileText::Localizable(v.iter().map(|l| l.value.clone()).collect()),
        ),
        Some(MoxText::Description(d)) => Some(ProfileText::Description(d.ascii_string.clone())),
    }
}

/// Reads a moxcms profile: its header fields (`color_space`, `pcs`, `profile_class`,
/// `rendering_intent`, `version()`), `is_matrix_shaper()`, and its `description` and
/// `copyright` fields. Claimed: the fields are in the ranges of their enums.
#[verifier::external_body]
fn moxcms_reading(p: &MoxProfile) -> (r: ProfileReading)
    ensures
        fields_in_range(r.fields),
{
    ProfileReading {
        fields: HeaderFields {
            color_space: p.color_space as u32,
            pcs: p.pcs as u32,
            class: p.profile_class as u32,
            intent: p.rendering_intent as u32,
            version: p.version() as u32,
        },
        matrix_shaper: p.is_matrix_shaper(),
        description: convert_text(&p.description),
        copyright: convert_text(&p.copyright),
    }
}

/// Parses `data` with `moxcms::ColorProfile::new_from_slice` and reads the profile.
///
/// Claimed: the outcome, and the matrix-shaper flag and texts of an accepted profile,
/// depend on the bytes alone; bytes shorter than the 132 bytes that moxcms reads as the
/// header and tag count are refused; and an accepted profile holds the colour spaces, class,
/// intent and version that its header states (moxcms refuses a header whose values it does
/// not know).
#[verifier::external_body]
fn moxcms_new_from_slice(data: &[u8]) -> (r: core::result::Result<(MoxProfile, ProfileReading), String>)
    ensures
        r is Ok <==> moxcms_parse(data@) is Ok,
        r matches Err(m) ==> moxcms_parse(data@)->Err_0 == m@,
        data@.len() < 132 ==> r is Err,
        r matches Ok(pr) ==> (header_fields_of(data@, pr.1.fields) && fields_in_range(pr.1.fields)
            && moxcms_parse(data@)->Ok_0 == pr.1@),
{
    match moxcms::ColorProfile::new_from_slice(data) {
        Ok(p) => {
            let reading = moxcms_reading(&p);
            Ok((p, reading))
        },
        Err(e) => Err(format!("{:?}", e)),
    }
}

/// `moxcms::ColorProfile::new_srgb`, read. The profile starts from moxcms's basic RGB
/// profile (RGB data, XYZ connection space, display class, perceptual intent, version 4.4),
/// sets colorants and all three tone curves, which makes it a matrix-shaper profile, and
/// sets the description "sRGB IEC61966-2.1" and the copyright "Public Domain", each as one localized
/// value.
#[verifier::external_body]
fn moxcms_srgb() -> (r: (MoxProfile, ProfileReading))
    ensures
        rgb_display_fields(r.1.fields),
        r.1@ == builtin_reading("sRGB IEC61966-2.1"@, true),
{
    let p = moxcms::ColorProfile::new_srgb();
    let reading = moxcms_reading(&p);
    (p, reading)
}

/// `moxcms::ColorProfile::new_display_p3`, read. The profile starts from moxcms's basic RGB
/// profile (RGB data, XYZ connection space, display class, perceptual intent, version 4.4),
/// sets colorants and all three tone curves, which makes it a matrix-shaper profile, and
/// sets the description "Display P3" and the copyright "Public Domain", each as one localized
/// value.
#[verifier::external_body]
fn moxcms_display_p3() -> (r: (MoxProfile, ProfileReading))
    ensures
        rgb_display_fields(r.1.fields),
        r.1@ == builtin_reading("Display P3"@, true),
{
    let p = moxcms::ColorProfile::new_display_p3();
    let reading = moxcms_reading(&p);
    (p, reading)
}

/// `moxcms::ColorProfile::new_adobe_rgb`, read. The profile starts from moxcms's basic RGB
/// profile (RGB data, XYZ connection space, display class, perceptual intent, version 4.4),
/// sets colorants and all three tone curves, which makes it a matrix-shaper profile, and
/// sets the description "Adobe RGB 1998" and the copyright "Public Domain", each as one localized
/// value.
#[verifier::external_body]
fn moxcms_adobe_rgb() -> (r: (MoxProfile, ProfileReading))
    ensures
        rgb_display_fields(r.1.fields),
        r.1@ == builtin_reading("Adobe RGB 1998"@, true),
{
    let p = moxcms::ColorProfile::new_adobe_rgb();
    let reading = moxcms_reading(&p);
    (p, reading)
}

/// `moxcms::ColorProfile::new_bt2020`, read. The profile starts from moxcms's basic RGB
/// profile (RGB data, XYZ connection space, display class, perceptual intent, version 4.4),
/// sets colorants and all three tone curves, which makes it a matrix-shaper profile, and
/// sets the description "Rec.2020" and the copyright "Public Domain", each as one localized
/// value.
#[verifier::external_body]
fn moxcms_bt2020() -> (r: (MoxProfile, ProfileReading))
    ensures
        rgb_display_fields(r.1.fields),
        r.1@ == builtin_reading("Rec.2020"@, true),
{
    let p = moxcms::ColorProfile::new_bt2020();
    let reading = moxcms_reading(&p);
    (p, reading)
}

/// `moxcms::ColorProfile::new_dci_p3`, read. The profile starts from moxcms's basic RGB
/// profile (RGB data, XYZ connection space, display class, perceptual intent, version 4.4),
/// sets colorants and all three tone curves, which makes it a matrix-shaper profile, and
/// sets the description "DCI P3" and the copyright "Public Domain", each as one localized
/// value.
#[verifier::external_body]
fn moxcms_dci_p3() -> (r: (MoxProfile, ProfileReading))
    ensures
        rgb_display_fields(r.1.fields),
        r.1@ == builtin_reading("DCI P3"@, true),
{
    let p = moxcms::ColorProfile::new_dci_p3();
    let reading = moxcms_reading(&p);
    (p, reading)
}

/// `moxcms::ColorProfile::new_pro_photo_rgb`, read. The profile starts from moxcms's basic RGB
/// profile (RGB data, XYZ connection space, display class, perceptual intent, version 4.4),
/// sets colorants and all three tone curves, which makes it a matrix-shaper profile, and
/// sets the description "ProPhoto RGB" and the copyright "Public Domain", each as one localized
/// value.
#[verifier::external_body]
fn moxcms_pro_photo_rgb() -> (r: (MoxProfile, ProfileReading))
    ensures
        rgb_display_fields(r.1.fields),
        r.1@ == builtin_reading("ProPhoto RGB"@, true),
{
    let p = moxcms::ColorProfile::new_pro_photo_rgb();
    let reading = moxcms_reading(&p);
    (p, reading)
}

/// `moxcms::ColorProfile::new_display_p3_pq`, read. The profile starts from moxcms's basic RGB
/// profile (RGB data, XYZ connection space, display class, perceptual intent, version 4.4),
/// sets colorants and all three tone curves, which makes it a matrix-shaper profile, and
/// sets the description "Display P3 PQ" and the copyright "Public Domain", each as one localized
/// value.
#[verifier::external_body]
fn moxcms_display_p3_pq() -> (r: (MoxProfile, ProfileReading))
    ensures
        rgb_display_fields(r.1.fields),
        r.1@ == builtin_reading("Display P3 PQ"@, true),
{
    let p = moxcms::ColorProfile::new_display_p3_pq();
    let reading = moxcms_reading(&p);
    (p, reading)
}

/// `moxcms::ColorProfile::new_bt2020_pq`, read. The profile starts from moxcms's basic RGB
/// profile (RGB data, XYZ connection space, display class, perceptual intent, version 4.4),
/// sets colorants and all three tone curves, which makes it a matrix-shaper profile, and
/// sets the description "Rec.2020 PQ" and the copyright "Public Domain", each as one localized
/// value.
#[verifier::external_body]
fn moxcms_bt2020_pq() -> (r: (MoxProfile, ProfileReading))
    ensures
        rgb_display_fields(r.1.fields),
        r.1@ == builtin_reading("Rec.2020 PQ"@, true),
{
    let p = moxcms::ColorProfile::new_bt2020_pq();
    let reading = moxcms_reading(&p);
    (p, reading)
}

/// `moxcms::ColorProfile::new_bt2020_hlg`, read. The profile starts from moxcms's basic RGB
/// profile (RGB data, XYZ connection space, display class, perceptual intent, version 4.4),
/// sets colorants and all three tone curves, which makes it a matrix-shaper profile, and
/// sets the description "Rec.2020 HLG" and the copyright "Public Domain", each as one localized
/// value.
#[verifier::external_body]
fn moxcms_bt2020_hlg() -> (r: (MoxProfile, ProfileReading))
    ensures
        rgb_display_fields(r.1.fields),
        r.1@ == builtin_reading("Rec.2020 HLG"@, true),
{
    let p = moxcms::ColorProfile::new_bt2020_hlg();
    let reading = moxcms_reading(&p);
    (p, reading)
}

/// `moxcms::ColorProfile::new_aces_aces_2065_1_linear`, read. The profile starts from moxcms's basic RGB
/// profile (RGB data, XYZ connection space, display class, perceptual intent, version 4.4),
/// sets colorants and all three tone curves, which makes it a matrix-shaper profile, and
/// sets the description "ACES 2065-1" and the copyright "Public Domain", each as one localized
/// value.
#[verifier::external_body]
fn moxcms_aces_2065_1_linear() -> (r: (MoxProfile, ProfileReading))
    ensures
        rgb_display_fields(r.1.fields),
        r.1@ == builtin_reading("ACES 2065-1"@, true),
{
    let p = moxcms::ColorProfile::new_aces_aces_2065_1_linear();
    let reading = moxcms_reading(&p);
    (p, reading)
}

/// `moxcms::ColorProfile::new_aces_cg_linear`, read. The profile starts from moxcms's basic RGB
/// profile (RGB data, XYZ connection space, display class, perceptual intent, version 4.4),
/// sets colorants and all three tone curves, which makes it a matrix-shaper profile, and
/// sets the description "ACEScg/AP1" and the copyright "Public Domain", each as one localized
/// value.
#[verifier::external_body]
fn moxcms_aces_cg_linear() -> (r: (MoxProfile, ProfileReading))
    ensures
        rgb_display_fields(r.1.fields),
        r.1@ == builtin_reading("ACEScg/AP1"@, true),
{
    let p = moxcms::ColorProfile::new_aces_cg_linear();
    let reading = moxcms_reading(&p);
    (p, reading)
}

/// `moxcms::ColorProfile::new_lab`, read: Lab data, XYZ connection space, display class,
/// perceptual intent, version 4.4 (the default), not matrix-shaper (that takes RGB data),
/// with the description "Generic L*a*b* Profile" and the copyright "Public Domain", each as
/// one localized value.
#[verifier::external_body]
fn moxcms_lab() -> (r: (MoxProfile, ProfileReading))
    ensures
        r.1.fields.color_space == 1 && r.1.fields.pcs == 0 && r.1.fields.class == 1
            && r.1.fields.intent == 0 && r.1.fields.version == 0x0440_0000,
        r.1@ == builtin_reading("Generic L*a*b* Profile"@, false),
{
    let p = moxcms::ColorProfile::new_lab();
    let reading = moxcms_reading(&p);
    (p, reading)
}

/// `moxcms::ColorProfile::new_from_cicp`, read. The profile starts from moxcms's basic RGB
/// profile (RGB data, XYZ connection space, display class, perceptual intent, version 4.4,
/// no description, no copyright) and the code points change only its colorants, curves and
/// `cicp` field. Left unsaid: whether it is a matrix-shaper profile, which depends on
/// whether the code points give colorants and curves.
#[verifier::external_body]
fn moxcms_from_cicp(cicp: moxcms::CicpProfile) -> (r: (MoxProfile, ProfileReading))
    ensures
        rgb_display_fields(r.1.fields),
        r.1.description is None,
        r.1.copyright is None,
{
    let p = moxcms::ColorProfile::new_from_cicp(cicp);
    let reading = moxcms_reading(&p);
    (p, reading)
}

/// The plain values that the library reads from a profile.
#[derive(Debug, Clone)]
pub struct ProfileSummary {
    /// Colour space of the profile's data
    pub color_space: DataColorSpace,
    /// Profile connection space
    pub pcs: DataColorSpace,
    /// Device class
    pub profile_class: ProfileClass,
    /// Rendering intent of the header
    pub rendering_intent: RenderingIntent,
    /// Profile version
    pub version: ProfileVersion,
    /// Whether the profile is a complete matrix-shaper profile
    pub matrix_shaper: bool,
    /// Description text
    pub description: Option<ProfileText>,
    /// Copyright text
    pub copyright: Option<ProfileText>,
}

/// The summary's header values are those the fields stand for.
pub open spec fn summary_holds(s: ProfileSummary, f: HeaderFields) -> bool {
    &&& s.color_space == color_space_at(f.color_space)
    &&& s.pcs == color_space_at(f.pcs)
    &&& s.profile_class == class_at(f.class)
    &&& s.rendering_intent == intent_of_number(f.intent)
    &&& s.version == version_of_code(f.version)
}

/// The summary's header values are those the header bytes state, as moxcms reads them.
pub open spec fn summary_of_header(s: ProfileSummary, data: Seq<u8>) -> bool {
    &&& s.color_space == color_space_at(space_position_of_sig(be_u32(data, 16)))
    &&& s.pcs == color_space_at(space_position_of_sig(be_u32(data, 20)))
    &&& s.profile_class == class_at(class_position_of_sig(be_u32(data, 12)))
    &&& s.rendering_intent == intent_of_number(be_u32(data, 64))
    &&& s.version == version_of_code(moxcms_version_read(be_u32(data, 8)))
}

/// The summary holds what was read from a profile: the header values its fields stand for,
/// the matrix-shaper flag and the texts.
pub open spec fn summary_is(s: ProfileSummary, reading: ProfileReading) -> bool {
    &&& summary_holds(s, reading.fields)
    &&& s.matrix_shaper == reading.matrix_shaper
    &&& s.description == reading.description
    &&& s.copyright == reading.copyright
}

/// The matrix-shaper flag and texts of a summary, as mathematical values.
pub open spec fn summary_reading(s: ProfileSummary) -> ReadingView {
    ReadingView {
        matrix_shaper: s.matrix_shaper,
        description: opt_text_view(s.description),
        copyright: opt_text_view(s.copyright),
    }
}

/// ICC Color Profile
///
/// Represents a parsed ICC color profile. Supports ICC v2 and v4 profiles.
#[derive(Debug, Clone)]
pub struct ColorProfile {
    inner: MoxProfile,
    summary: ProfileSummary,
}

impl ColorProfile {
    /// The plain values read from the profile.
    pub closed spec fn summary(&self) -> ProfileSummary {
        self.summary
    }

    /// The moxcms profile.
    pub closed spec fn moxcms_profile(&self) -> MoxProfile {
        self.inner
    }

    /// Wraps a moxcms profile, reading the plain values the library uses.
    pub fn from_moxcms(inner: MoxProfile) -> (r: Self)
        ensures
            r.moxcms_profile() == inner,
    {
        let reading = moxcms_reading(&inner);
        ColorProfile::with_reading(inner, reading)
    }

    /// Wraps a moxcms profile together with what was read from it.
    fn with_reading(inner: MoxProfile, reading: ProfileReading) -> (r: Self)
        ensures
            r.moxcms_profile() == inner,
            summary_is(r.summary(), reading),
    {
        let cs = color_space_from_position(reading.fields.color_space);
        let pcs = color_space_from_position(reading.fields.pcs);
        let class = class_from_position(reading.fields.class);
        let intent = intent_from_number(reading.fields.intent);
        let version = version_from_code(reading.fields.version);
        let summary = ProfileSummary {
            color_space: cs,
            pcs,
            profile_class: class,
            rendering_intent: intent,
            version,
            matrix_shaper: reading.matrix_shaper,
            description: reading.description,
            copyright: reading.copyright,
        };
        ColorProfile { inner, summary }
    }

    /// Turns the outcome of moxcms's parse (the profile with what was read from it, or the
    /// message of the error) into a profile or a parse error carrying moxcms's message.
    pub fn from_parse_outcome(outcome: core::result::Result<(MoxProfile, ProfileReading), String>) -> (r:
        Result<Self>)
        ensures
            outcome is Ok <==> r is Ok,
            r matches Ok(p) ==> (outcome matches Ok(q) && p.moxcms_profile() == q.0
                && summary_is(p.summary(), q.1)),
            r matches Err(e) ==> (outcome matches Err(m) && e matches Error::ProfileParse(t) && t
                == m),
    {
        match outcome {
            Ok((p, reading)) => Ok(ColorProfile::with_reading(p, reading)),
            Err(m) => Err(Error::ProfileParse(m)),
        }
    }

    /// Create a profile from raw ICC data
    ///
    /// The profile holds the data colour space, connection space, class, rendering intent
    /// and version that its header states (moxcms reads version 4.4 as 4.3), and the
    /// matrix-shaper flag and texts that moxcms reads from the bytes.
    pub fn from_bytes(data: &[u8]) -> (r: Result<Self>)
        ensures
            r is Ok <==> moxcms_parse(data@) is Ok,
            r matches Err(e) ==> (e matches Error::ProfileParse(m) && moxcms_parse(data@)->Err_0
                == m@),
            data@.len() < 132 ==> r is Err,
            r matches Ok(p) ==> (summary_of_header(p.summary(), data@) && moxcms_parse(data@)->Ok_0
                == summary_reading(p.summary())),
    {
        let outcome = moxcms_new_from_slice(data);
        ColorProfile::from_parse_outcome(outcome)
    }

    /// Create a built-in sRGB profile
    pub fn new_srgb() -> (r: Self)
        ensures
            r.summary().color_space == DataColorSpace::Rgb,
            r.summary().pcs == DataColorSpace::Xyz,
            r.summary().profile_class == ProfileClass::Display,
            r.summary().rendering_intent == RenderingIntent::Perceptual,
            r.summary().version == ProfileVersion::V4_4,
            r.summary().matrix_shaper,
            opt_text_view(r.summary().description) == localized_text("sRGB IEC61966-2.1"@),
            opt_text_view(r.summary().copyright) == localized_text("Public Domain"@),
    {
        let (p, reading) = moxcms_srgb();
        ColorProfile::with_reading(p, reading)
    }

    /// Create a built-in Display P3 profile
    pub fn new_display_p3() -> (r: Self)
        ensures
            r.summary().color_space == DataColorSpace::Rgb,
            r.summary().pcs == DataColorSpace::Xyz,
            r.summary().profile_class == ProfileClass::Display,
            r.summary().rendering_intent == RenderingIntent::Perceptual,
            r.summary().version == ProfileVersion::V4_4,
            r.summary().matrix_shaper,
            opt_text_view(r.summary().description) == localized_text("Display P3"@),
            opt_text_view(r.summary().copyright) == localized_text("Public Domain"@),
    {
        let (p, reading) = moxcms_display_p3();
        ColorProfile::with_reading(p, reading)
    }

    /// Create a built-in Adobe RGB (1998) profile
    pub fn new_adobe_rgb() -> (r: Self)
        ensures
            r.summary().color_space == DataColorSpace::Rgb,
            r.summary().pcs == DataColorSpace::Xyz,
            r.summary().profile_class == ProfileClass::Display,
            r.summary().rendering_intent == RenderingIntent::Perceptual,
            r.summary().version == ProfileVersion::V4_4,
            r.summary().matrix_shaper,
            opt_text_view(r.summary().description) == localized_text("Adobe RGB 1998"@),
            opt_text_view(r.summary().copyright) == localized_text("Public Domain"@),
    {
        let (p, reading) = moxcms_adobe_rgb();
        ColorProfile::with_reading(p, reading)
    }

    /// Create a built-in BT.2020 profile
    pub fn new_bt2020() -> (r: Self)
        ensures
            r.summary().color_space == DataColorSpace::Rgb,
            r.summary().pcs == DataColorSpace::Xyz,
            r.summary().profile_class == ProfileClass::Display,
            r.summary().rendering_intent == RenderingIntent::Perceptual,
            r.summary().version == ProfileVersion::V4_4,
            r.summary().matrix_shaper,
            opt_text_view(r.summary().description) == localized_text("Rec.2020"@),
            opt_text_view(r.summary().copyright) == localized_text("Public Domain"@),
    {
        let (p, reading) = moxcms_bt2020();
        ColorProfile::with_reading(p, reading)
    }

    /// Create a built-in BT.709 profile (same primaries as sRGB)
    pub fn new_bt709() -> (r: Self)
        ensures
            r.summary().color_space == DataColorSpace::Rgb,
            r.summary().pcs == DataColorSpace::Xyz,
            r.summary().profile_class == ProfileClass::Display,
            r.summary().rendering_intent == RenderingIntent::Perceptual,
            r.summary().version == ProfileVersion::V4_4,
            r.summary().matrix_shaper,
            opt_text_view(r.summary().description) == localized_text("sRGB IEC61966-2.1"@),
            opt_text_view(r.summary().copyright) == localized_text("Public Domain"@),
    {
        let (p, reading) = moxcms_srgb();
        ColorProfile::with_reading(p, reading)
    }

    /// Create a DCI-P3 profile (theatrical cinema)
    pub fn new_dci_p3() -> (r: Self)
        ensures
            r.summary().color_space == DataColorSpace::Rgb,
            r.summary().pcs == DataColorSpace::Xyz,
            r.summary().profile_class == ProfileClass::Display,
            r.summary().rendering_intent == RenderingIntent::Perceptual,
            r.summary().version == ProfileVersion::V4_4,
            r.summary().matrix_shaper,
            opt_text_view(r.summary().description) == localized_text("DCI P3"@),
            opt_text_view(r.summary().copyright) == localized_text("Public Domain"@),
    {
        let (p, reading) = moxcms_dci_p3();
        ColorProfile::with_reading(p, reading)
    }

    /// Create a ProPhoto RGB profile (wide gamut)
    pub fn new_pro_photo_rgb() -> (r: Self)
        ensures
            r.summary().color_space == DataColorSpace::Rgb,
            r.summary().pcs == DataColorSpace::Xyz,
            r.summary().profile_class == ProfileClass::Display,
            r.summary().rendering_intent == RenderingIntent::Perceptual,
            r.summary().version == ProfileVersion::V4_4,
            r.summary().matrix_shaper,
            opt_text_view(r.summary().description) == localized_text("ProPhoto RGB"@),
            opt_text_view(r.summary().copyright) == localized_text("Public Domain"@),
    {
        let (p, reading) = moxcms_pro_photo_rgb();
        ColorProfile::with_reading(p, reading)
    }

    /// Create a Display P3 PQ profile (HDR)
    pub fn new_display_p3_pq() -> (r: Self)
        ensures
            r.summary().color_space == DataColorSpace::Rgb,
            r.summary().pcs == DataColorSpace::Xyz,
            r.summary().profile_class == ProfileClass::Display,
            r.summary().rendering_intent == RenderingIntent::Perceptual,
            r.summary().version == ProfileVersion::V4_4,
            r.summary().matrix_shaper,
            opt_text_view(r.summary().description) == localized_text("Display P3 PQ"@),
            opt_text_view(r.summary().copyright) == localized_text("Public Domain"@),
    {
        let (p, reading) = moxcms_display_p3_pq();
        ColorProfile::with_reading(p, reading)
    }

    /// Create a BT.2020 PQ profile (HDR)
    pub fn new_bt2020_pq() -> (r: Self)
        ensures
            r.summary().color_space == DataColorSpace::Rgb,
            r.summary().pcs == DataColorSpace::Xyz,
            r.summary().profile_class == ProfileClass::Display,
            r.summary().rendering_intent == RenderingIntent::Perceptual,
            r.summary().version == ProfileVersion::V4_4,
            r.summary().matrix_shaper,
            opt_text_view(r.summary().description) == localized_text("Rec.2020 PQ"@),
            opt_text_view(r.summary().copyright) == localized_text("Public Domain"@),
    {
        let (p, reading) = moxcms_bt2020_pq();
        ColorProfile::with_reading(p, reading)
    }

    /// Create a BT.2020 HLG profile (HDR)
    pub fn new_bt2020_hlg() -> (r: Self)
        ensures
            r.summary().color_space == DataColorSpace::Rgb,
            r.summary().pcs == DataColorSpace::Xyz,
            r.summary().profile_class == ProfileClass::Display,
            r.summary().rendering_intent == RenderingIntent::Perceptual,
            r.summary().version == ProfileVersion::V4_4,
            r.summary().matrix_shaper,
            opt_text_view(r.summary().description) == localized_text("Rec.2020 HLG"@),
            opt_text_view(r.summary().copyright) == localized_text("Public Domain"@),
    {
        let (p, reading) = moxcms_bt2020_hlg();
        ColorProfile::with_reading(p, reading)
    }

    /// Create a Lab profile (CIELAB D50)
    pub fn new_lab() -> (r: Self)
        ensures
            r.summary().color_space == DataColorSpace::Lab,
            r.summary().pcs == DataColorSpace::Xyz,
            r.summary().profile_class == ProfileClass::Display,
            r.summary().rendering_intent == RenderingIntent::Perceptual,
            r.summary().version == ProfileVersion::V4_4,
            !r.summary().matrix_shaper,
            opt_text_view(r.summary().description) == localized_text("Generic L*a*b* Profile"@),
            opt_text_view(r.summary().copyright) == localized_text("Public Domain"@),
    {
        let (p, reading) = moxcms_lab();
        ColorProfile::with_reading(p, reading)
    }

    /// Create an ACES 2065-1 linear profile (film/VFX)
    pub fn new_aces_linear() -> (r: Self)
        ensures
            r.summary().color_space == DataColorSpace::Rgb,
            r.summary().pcs == DataColorSpace::Xyz,
            r.summary().profile_class == ProfileClass::Display,
            r.summary().rendering_intent == RenderingIntent::Perceptual,
            r.summary().version == ProfileVersion::V4_4,
            r.summary().matrix_shaper,
            opt_text_view(r.summary().description) == localized_text("ACES 2065-1"@),
            opt_text_view(r.summary().copyright) == localized_text("Public Domain"@),
    {
        let (p, reading) = moxcms_aces_2065_1_linear();
        ColorProfile::with_reading(p, reading)
    }

    /// Create an ACEScg linear profile (film/VFX)
    pub fn new_aces_cg() -> (r: Self)
        ensures
            r.summary().color_space == DataColorSpace::Rgb,
            r.summary().pcs == DataColorSpace::Xyz,
            r.summary().profile_class == ProfileClass::Display,
            r.summary().rendering_intent == RenderingIntent::Perceptual,
            r.summary().version == ProfileVersion::V4_4,
            r.summary().matrix_shaper,
            opt_text_view(r.summary().description) == localized_text("ACEScg/AP1"@),
            opt_text_view(r.summary().copyright) == localized_text("Public Domain"@),
    {
        let (p, reading) = moxcms_aces_cg_linear();
        ColorProfile::with_reading(p, reading)
    }

    /// Create a profile from CICP parameters (commonly used in video)
    pub fn from_cicp(cicp: moxcms::CicpProfile) -> (r: Self)
        ensures
            r.summary().color_space == DataColorSpace::Rgb,
            r.summary().pcs == DataColorSpace::Xyz,
            r.summary().profile_class == ProfileClass::Display,
            r.summary().rendering_intent == RenderingIntent::Perceptual,
            r.summary().version == ProfileVersion::V4_4,
            r.summary().description is None,
            r.summary().copyright is None,
    {
        let (p, reading) = moxcms_from_cicp(cicp);
        ColorProfile::with_reading(p, reading)
    }

    /// Get the profile's color space
    pub fn color_space(&self) -> (r: DataColorSpace)
        ensures
            r == self.summary().color_space,
    {
        self.summary.color_space
    }

    /// Get the profile connection space (PCS)
    pub fn pcs(&self) -> (r: DataColorSpace)
        ensures
            r == self.summary().pcs,
    {
        self.summary.pcs
    }

    /// Get the profile version
    pub fn version(&self) -> (r: ProfileVersion)
        ensures
            r == self.summary().version,
    {
        self.summary.version
    }

    /// Get the profile class
    pub fn profile_class(&self) -> (r: ProfileClass)
        ensures
            r == self.summary().profile_class,
    {
        self.summary.profile_class
    }

    /// Get the rendering intent
    pub fn rendering_intent(&self) -> (r: RenderingIntent)
        ensures
            r == self.summary().rendering_intent,
    {
        self.summary.rendering_intent
    }

    /// Check if this is a matrix-shaper profile
    pub fn is_matrix_shaper(&self) -> (r: bool)
        ensures
            r == self.summary().matrix_shaper,
    {
        self.summary.matrix_shaper
    }

    /// Get description text if available
    pub fn description(&self) -> (r: Option<String>)
        ensures
            r is Some <==> self.summary().description is Some,
            r matches Some(s) ==> s@ == text_value(self.summary().description->0),
    {
        match &self.summary.description {
            Some(t) => Some(profile_text_value(t)),
            None => None,
        }
    }

    /// Get copyright text if available
    pub fn copyright(&self) -> (r: Option<String>)
        ensures
            r is Some <==> self.summary().copyright is Some,
            r matches Some(s) ==> s@ == text_value(self.summary().copyright->0),
    {
        match &self.summary.copyright {
            Some(t) => Some(profile_text_value(t)),
            None => None,
        }
    }

    /// Access the inner moxcms profile
    pub fn inner(&self) -> (r: &MoxProfile)
        ensures
            *r == self.moxcms_profile(),
    {
        &self.inner
    }
}

/// Whether two profiles would produce identical transforms, given whether their
/// colorant matrices agree.
pub open spec fn equivalent_given(a: ProfileSummary, b: ProfileSummary, colorants_agree: bool) -> bool {
    &&& a.color_space == b.color_space
    &&& a.pcs == b.pcs
    &&& a.matrix_shaper && b.matrix_shaper
    &&& colorants_agree
}

/// Decides whether two profiles would produce identical transforms, given
/// whether their colorant matrices agree entry by entry.
///
/// Profiles are equivalent when they have the same data and connection spaces,
/// both are matrix-shaper profiles, and their colorants agree.
pub fn equivalence_verdict(a: &ColorProfile, b: &ColorProfile, colorants_agree: bool) -> (r: bool)
    ensures
        r == equivalent_given(a.summary(), b.summary(), colorants_agree),
{
    if a.summary.color_space != b.summary.color_space {
        return false;
    }
    if a.summary.pcs != b.summary.pcs {
        return false;
    }
    if a.summary.matrix_shaper && b.summary.matrix_shaper {
        return colorants_agree;
    }
    false
}

/// Equivalence does not depend on the order of the two profiles.
pub proof fn equivalence_is_symmetric(a: ProfileSummary, b: ProfileSummary, colorants_agree: bool)
    ensures
        equivalent_given(a, b, colorants_agree) == equivalent_given(b, a, colorants_agree),
{
}

/// The colour space of this library named like an ICC colour space (`YCbr` for YCbCr).
pub open spec fn data_space_named(c: IccColorSpace) -> DataColorSpace {
    match c {
        IccColorSpace::Xyz => DataColorSpace::Xyz,
        IccColorSpace::Lab => DataColorSpace::Lab,
        IccColorSpace::Luv => DataColorSpace::Luv,
        IccColorSpace::YCbCr => DataColorSpace::YCbr,
        IccColorSpace::Yxy => DataColorSpace::Yxy,
        IccColorSpace::Rgb => DataColorSpace::Rgb,
        IccColorSpace::Gray => DataColorSpace::Gray,
        IccColorSpace::Hsv => DataColorSpace::Hsv,
        IccColorSpace::Hls => DataColorSpace::Hls,
        IccColorSpace::Cmyk => DataColorSpace::Cmyk,
        IccColorSpace::Cmy => DataColorSpace::Cmy,
        IccColorSpace::Color2 => DataColorSpace::Color2,
        IccColorSpace::Color3 => DataColorSpace::Color3,
        IccColorSpace::Color4 => DataColorSpace::Color4,
        IccColorSpace::Color5 => DataColorSpace::Color5,
        IccColorSpace::Color6 => DataColorSpace::Color6,
        IccColorSpace::Color7 => DataColorSpace::Color7,
        IccColorSpace::Color8 => DataColorSpace::Color8,
        IccColorSpace::Color9 => DataColorSpace::Color9,
        IccColorSpace::Color10 => DataColorSpace::Color10,
        IccColorSpace::Color11 => DataColorSpace::Color11,
        IccColorSpace::Color12 => DataColorSpace::Color12,
        IccColorSpace::Color13 => DataColorSpace::Color13,
        IccColorSpace::Color14 => DataColorSpace::Color14,
        IccColorSpace::Color15 => DataColorSpace::Color15,
    }
}

/// Each ICC colour space, at the position moxcms gives it, reads back as the colour space
/// named like it.
pub proof fn positions_read_back_as_named_spaces(c: IccColorSpace)
    ensures
        color_space_at(space_position(c)) == data_space_named(c),
{
}

/// The data colour space and connection space a profile reports are the ones its header's
/// signatures name ('CMYK' gives `Cmyk`, 'CMY ' gives `Cmy`, 'RGB ' gives `Rgb`, ...).
pub proof fn reported_spaces_are_named_by_the_header(s: ProfileSummary, data: Seq<u8>)
    requires
        summary_of_header(s, data),
    ensures
        color_space_of(be_u32(data, 16)) matches Some(c) ==> s.color_space == data_space_named(c),
        color_space_of(be_u32(data, 20)) matches Some(c) ==> s.pcs == data_space_named(c),
{
    if let Some(c) = color_space_of(be_u32(data, 16)) {
        positions_read_back_as_named_spaces(c);
    }
    if let Some(c) = color_space_of(be_u32(data, 20)) {
        positions_read_back_as_named_spaces(c);
    }
}

/// The profile class of this library named like an ICC profile class.
pub open spec fn class_named(c: IccProfileClass) -> ProfileClass {
    match c {
        IccProfileClass::Input => ProfileClass::Input,
        IccProfileClass::Display => ProfileClass::Display,
        IccProfileClass::Output => ProfileClass::Output,
        IccProfileClass::DeviceLink => ProfileClass::DeviceLink,
        IccProfileClass::ColorSpace => ProfileClass::ColorSpace,
        IccProfileClass::Abstract => ProfileClass::Abstract,
        IccProfileClass::NamedColor => ProfileClass::NamedColor,
    }
}

/// The class, rendering intent and version a profile reports are the ones its header states:
/// the class its signature names; intent 0 perceptual, 1 relative colorimetric, 2 saturation,
/// 3 absolute colorimetric; each named version code its version, with 4.4 read as 4.3 the way
/// moxcms reads it.
pub proof fn reported_header_values_are_those_stated(s: ProfileSummary, data: Seq<u8>)
    requires
        summary_of_header(s, data),
    ensures
        profile_class_of(be_u32(data, 12)) matches Some(c) ==> s.profile_class == class_named(c),
        be_u32(data, 64) == 0 ==> s.rendering_intent == RenderingIntent::Perceptual,
        be_u32(data, 64) == 1 ==> s.rendering_intent == RenderingIntent::RelativeColorimetric,
        be_u32(data, 64) == 2 ==> s.rendering_intent == RenderingIntent::Saturation,
        be_u32(data, 64) == 3 ==> s.rendering_intent == RenderingIntent::AbsoluteColorimetric,
        be_u32(data, 8) == 0x0200_0000 ==> s.version == ProfileVersion::V2_0,
        be_u32(data, 8) == 0x0210_0000 ==> s.version == ProfileVersion::V2_1,
        be_u32(data, 8) == 0x0220_0000 ==> s.version == ProfileVersion::V2_2,
        be_u32(data, 8) == 0x0230_0000 ==> s.version == ProfileVersion::V2_3,
        be_u32(data, 8) == 0x0240_0000 ==> s.version == ProfileVersion::V2_4,
        be_u32(data, 8) == 0x0400_0000 ==> s.version == ProfileVersion::V4_0,
        be_u32(data, 8) == 0x0410_0000 ==> s.version == ProfileVersion::V4_1,
        be_u32(data, 8) == 0x0420_0000 ==> s.version == ProfileVersion::V4_2,
        be_u32(data, 8) == 0x0430_0000 ==> s.version == ProfileVersion::V4_3,
        be_u32(data, 8) == 0x0440_0000 ==> s.version == ProfileVersion::V4_3,
{
}

/// A named version code `0xMm000000` is version M.m: its major number is the top byte and its
/// minor number the next nibble, and converting the version to version numbers gives them.
pub proof fn version_codes_give_their_numbers(c: u32)
    ensures
        version_of_code(c) != ProfileVersion::Unknown ==> ({
            let v = crate::types::version_of_profile_version(version_of_code(c));
            &&& c % 0x10_0000 == 0
            &&& v.major == c / 0x100_0000
            &&& v.minor == (c / 0x10_0000) % 16
            &&& v.patch == 0
        }),
{
}

} // verus!
