//! The ICC profile: a 128-byte header, a tag count, a tag table of (signature, offset, size)
//! entries, and the tag data the entries point at (which may overlap).

use std::collections::HashMap;

use vstd::prelude::*;
use vstd::std_specs::iter::IteratorSpec;

use super::bytes::{be_u32, read_u32_be};
use super::error::IccError;
use super::header::{four_cc, 
    header_error, header_matches, slice_range, spec_is_matrix_shaper_header, ColorSpace,
    IccHeader, RenderingIntent, MIN_PROFILE_SIZE,
};
use super::tags::{tag_spec, SpecParse, TagData, TagModel, TextData, XyzTagData, CurveData};
use super::header;
use super::tags::text;
use super::types::{S15Fixed16, TagSignature, XyzNumber};

verus! {

broadcast use vstd::std_specs::hash::group_hash_axioms;

/// An ICC profile parsed from bytes
#[derive(Debug, Clone)]
pub struct IccProfile {
    /// Profile header (128 bytes)
    pub header: IccHeader,
    /// Tag table: signature -> parsed data
    pub tags: HashMap<u32, TagData>,
    /// Raw profile data (for tags that need re-parsing)
    pub raw_data: Vec<u8>,
}

/// The signature of tag table entry `i`.
pub open spec fn entry_sig(data: Seq<u8>, i: int) -> u32 {
    be_u32(data, 132 + 12 * i)
}

/// The offset of the data of tag table entry `i`.
pub open spec fn entry_offset(data: Seq<u8>, i: int) -> u32 {
    be_u32(data, 136 + 12 * i)
}

/// The size of the data of tag table entry `i`.
pub open spec fn entry_size(data: Seq<u8>, i: int) -> u32 {
    be_u32(data, 140 + 12 * i)
}

/// The bytes of tag table entry `i`.
pub open spec fn entry_bytes(data: Seq<u8>, i: int) -> Seq<u8> {
    data.subrange(
        entry_offset(data, i) as int,
        entry_offset(data, i) + entry_size(data, i),
    )
}

/// What the profile keeps for a tag's bytes: the parsed data, or, where parsing fails, the
/// bytes as an unknown tag whose type is the first four bytes (zero if fewer).
pub open spec fn stored_tag(bytes: Seq<u8>) -> SpecParse<TagModel> {
    match tag_spec(bytes) {
        SpecParse::Parsed(t) => SpecParse::Parsed(t),
        SpecParse::Failed(_) => SpecParse::Parsed(
            TagModel::Unknown {
                type_sig: if bytes.len() >= 4 {
                    be_u32(bytes, 0)
                } else {
                    0
                },
                data: bytes,
            },
        ),
        SpecParse::Aborted => SpecParse::Aborted,
    }
}

/// What reading the first entries of the tag table comes to.
pub ghost enum TableScan {
    /// The tags read, by signature (a later entry replaces an earlier one)
    Tags(Map<u32, TagModel>),
    /// The first entry whose data lies past the end of the profile
    OutOfBounds { tag: u32, offset: u32, size: u32 },
    /// A tag whose parse aborts
    Aborted,
}

/// Reading the first `k` entries of the tag table, in order.
pub open spec fn scan_tags(data: Seq<u8>, k: nat) -> TableScan
    decreases k,
{
    if k == 0 {
        TableScan::Tags(Map::empty())
    } else {
        let i = k - 1;
        match scan_tags(data, (k - 1) as nat) {
            TableScan::Tags(m) => if entry_offset(data, i) + entry_size(data, i) > data.len() {
                TableScan::OutOfBounds {
                    tag: entry_sig(data, i),
                    offset: entry_offset(data, i),
                    size: entry_size(data, i),
                }
            } else {
                match stored_tag(entry_bytes(data, i)) {
                    SpecParse::Parsed(t) => TableScan::Tags(m.insert(entry_sig(data, i), t)),
                    _ => TableScan::Aborted,
                }
            },
            other => other,
        }
    }
}

/// The number of tag table entries.
pub open spec fn tag_count_of(data: Seq<u8>) -> nat {
    be_u32(data, 128) as nat
}

/// The first error that parsing `data` as a profile meets, if any (an abort is not an error).
pub open spec fn profile_error(data: Seq<u8>) -> Option<IccError> {
    match header_error(data) {
        Some(e) => Some(e),
        None => if be_u32(data, 0) > data.len() {
            Some(IccError::SizeMismatch { header_size: be_u32(data, 0), actual_size: data.len() as usize })
        } else if data.len() < 132 {
            Some(IccError::TooSmall { expected: 132, actual: data.len() as usize })
        } else if data.len() < 132 + 12 * tag_count_of(data) {
            Some(
                IccError::TooSmall {
                    expected: (132 + 12 * tag_count_of(data)) as usize,
                    actual: data.len() as usize,
                },
            )
        } else {
            match scan_tags(data, tag_count_of(data)) {
                TableScan::OutOfBounds { tag, offset, size } => Some(
                    IccError::TagOutOfBounds { tag, offset, size, profile_size: data.len() as usize },
                ),
                _ => None,
            }
        },
    }
}

/// Parsing `data` as a profile aborts: it gets past the header and the table size checks, and
/// a tag before any out-of-bounds entry aborts.
pub open spec fn profile_aborts(data: Seq<u8>) -> bool {
    &&& header_error(data) is None
    &&& be_u32(data, 0) <= data.len()
    &&& data.len() >= 132 + 12 * tag_count_of(data)
    &&& scan_tags(data, tag_count_of(data)) is Aborted
}

/// The models of the tags of a profile.
pub open spec fn tags_view(m: Map<u32, TagData>) -> Map<u32, TagModel> {
    m.map_values(|t: TagData| t@)
}

/// `p` is the profile that `data` holds.
pub open spec fn profile_matches(p: IccProfile, data: Seq<u8>) -> bool {
    &&& header_matches(p.header, data)
    &&& scan_tags(data, tag_count_of(data)) == TableScan::Tags(tags_view(p.tags@))
    &&& p.raw_data@ == data
}

/// The text of the tag `sig`, when it is a text tag.
pub open spec fn tag_text(m: Map<u32, TagData>, sig: u32) -> Option<Seq<char>> {
    if m.contains_key(sig) {
        match m[sig] {
            TagData::Text(t) => Some(t.text@),
            TagData::MultiLocalizedUnicode(t) => Some(t.text@),
            _ => None,
        }
    } else {
        None
    }
}

/// The first XYZ value of the tag `sig`, when it is an XYZ tag.
pub open spec fn tag_first_xyz(m: Map<u32, TagData>, sig: u32) -> Option<XyzNumber> {
    if m.contains_key(sig) {
        match m[sig] {
            TagData::Xyz(x) => if x.values@.len() > 0 {
                Some(x.values@[0])
            } else {
                None
            },
            _ => None,
        }
    } else {
        None
    }
}

/// `r` is the entry of `m` for `sig`, if any.
pub open spec fn lookup_is<V>(m: Map<u32, V>, sig: u32, r: Option<&V>) -> bool {
    match r {
        Some(v) => m.contains_key(sig) && *v == m[sig],
        None => !m.contains_key(sig),
    }
}

/// The A2B tag (`base` 'A2B0') or B2A tag (`base` 'B2A0') used for an intent: the intent's own
/// tag, falling back to the perceptual one.
pub open spec fn intent_tag(m: Map<u32, TagData>, base: u32, intent: RenderingIntent) -> Option<
    TagData,
> {
    let own = match intent {
        RenderingIntent::Perceptual => base,
        RenderingIntent::RelativeColorimetric => (base + 1) as u32,
        RenderingIntent::AbsoluteColorimetric => (base + 1) as u32,
        RenderingIntent::Saturation => (base + 2) as u32,
    };
    if m.contains_key(own) {
        Some(m[own])
    } else if m.contains_key(base) {
        Some(m[base])
    } else {
        None
    }
}

/// What the profile keeps for a tag's bytes; `None` where parsing the tag aborts.
fn store_tag(bytes: &[u8], sig: u32) -> (r: Option<TagData>)
    ensures
        match r {
            None => stored_tag(bytes@) is Aborted,
            Some(t) => stored_tag(bytes@) == SpecParse::<TagModel>::Parsed(t@),
        },
{
    match TagData::parse_checked(bytes, sig) {
        None => None,
        Some(Ok(t)) => Some(t),
        Some(Err(_)) => {
            let type_sig = if bytes.len() >= 4 {
                read_u32_be(bytes, 0)
            } else {
                0
            };
            Some(TagData::Unknown { type_sig, data: vstd::slice::slice_to_vec(bytes) })
        },
    }
}

/// Reads the `count` entries of the tag table; `None` where a tag aborts.
fn read_tag_table(data: &[u8], count: usize) -> (r: Option<Result<HashMap<u32, TagData>, IccError>>)
    requires
        count == tag_count_of(data@),
        data@.len() >= 132 + 12 * count,
    ensures
        match r {
            None => scan_tags(data@, count as nat) is Aborted,
            Some(Ok(m)) => scan_tags(data@, count as nat) == TableScan::Tags(tags_view(m@)),
            Some(Err(e)) => scan_tags(data@, count as nat) matches TableScan::OutOfBounds {
                tag,
                offset,
                size,
            } && e == IccError::TagOutOfBounds {
                tag,
                offset,
                size,
                profile_size: data@.len() as usize,
            },
        },
{
    let len = data.len();
    let mut tags: HashMap<u32, TagData> = HashMap::new();
    assert(tags_view(tags@) =~= Map::<u32, TagModel>::empty());
    let mut i: usize = 0;
    while i < count
        invariant
            len == data@.len(),
            count == tag_count_of(data@),
            len >= 132 + 12 * count,
            i <= count,
            scan_tags(data@, i as nat) == TableScan::Tags(tags_view(tags@)),
        decreases count - i,
    {
        let base = 132 + 12 * i;
        let sig = read_u32_be(data, base);
        let offset = read_u32_be(data, base + 4);
        let size = read_u32_be(data, base + 8);
        let ghost prev = tags_view(tags@);
        if (offset as u64) + (size as u64) > len as u64 {
            proof {
                lemma_scan_stops(data@, (i + 1) as nat, count as nat);
            }
            return Some(Err(IccError::TagOutOfBounds { tag: sig, offset, size, profile_size: len }));
        }
        let bytes = slice_range(data, offset as usize, (offset as usize) + (size as usize));
        let stored = match store_tag(bytes, sig) {
            None => {
                proof {
                    lemma_scan_stops(data@, (i + 1) as nat, count as nat);
                }
                return None;
            },
            Some(t) => t,
        };
        let ghost model = stored@;
        tags.insert(sig, stored);
        assert(tags_view(tags@) =~= prev.insert(sig, model));
        i = i + 1;
    }
    Some(Ok(tags))
}

impl IccProfile {
    /// Parses a profile; `None` where parsing aborts (a tag whose sizes overflow or whose
    /// element offsets lie past its data).
    pub fn parse_checked(data: &[u8]) -> (r: Option<Result<Self, IccError>>)
        ensures
            match r {
                None => profile_aborts(data@),
                Some(Ok(p)) => profile_error(data@) is None && !profile_aborts(data@)
                    && profile_matches(p, data@),
                Some(Err(e)) => profile_error(data@) == Some(e),
            },
    {
        let header = match IccHeader::parse(data) {
            Ok(h) => h,
            Err(e) => return Some(Err(e)),
        };
        match header.validate(data.len()) {
            Ok(()) => {},
            Err(e) => return Some(Err(e)),
        }
        let count = match IccProfile::parse_tag_count(data) {
            Ok(c) => c,
            Err(e) => return Some(Err(e)),
        };
        match IccProfile::check_tag_table(data, count) {
            Ok(()) => {},
            Err(e) => return Some(Err(e)),
        }
        let tags = match read_tag_table(data, count) {
            None => return None,
            Some(Err(e)) => return Some(Err(e)),
            Some(Ok(m)) => m,
        };
        Some(Ok(IccProfile { header, tags, raw_data: vstd::slice::slice_to_vec(data) }))
    }

    /// Parses an ICC profile from bytes.
    pub fn parse(data: &[u8]) -> (r: Result<Self, IccError>)
        ensures
            profile_aborts(data@) ==> (r matches Err(e) && e matches IccError::CorruptedData(m)
                && m@ == "Tag data out of range"@),
            !profile_aborts(data@) ==> match r {
                Ok(p) => profile_error(data@) is None && profile_matches(p, data@),
                Err(e) => profile_error(data@) == Some(e),
            },
    {
        match IccProfile::parse_checked(data) {
            Some(r) => r,
            None => Err(super::tags::corrupted("Tag data out of range")),
        }
    }

    /// The number of tags in the tag table.
    fn parse_tag_count(data: &[u8]) -> (r: Result<usize, IccError>)
        ensures
            data@.len() < 132 ==> r == Err::<usize, IccError>(
                IccError::TooSmall { expected: 132, actual: data@.len() as usize },
            ),
            data@.len() >= 132 ==> r == Ok::<usize, IccError>(tag_count_of(data@) as usize),
    {
        if data.len() < MIN_PROFILE_SIZE + 4 {
            return Err(IccError::TooSmall { expected: MIN_PROFILE_SIZE + 4, actual: data.len() });
        }
        Ok(read_u32_be(data, 128) as usize)
    }

    /// Checks that the tag table of `count` entries lies within the data.
    fn check_tag_table(data: &[u8], count: usize) -> (r: Result<(), IccError>)
        requires
            count <= u32::MAX,
        ensures
            data@.len() < 132 + 12 * count ==> r == Err::<(), IccError>(
                IccError::TooSmall { expected: (132 + 12 * count) as usize, actual: data@.len() as usize },
            ),
            data@.len() >= 132 + 12 * count ==> r is Ok,
    {
        let required: u64 = 132 + 12 * (count as u64);
        if (data.len() as u64) < required {
            return Err(IccError::TooSmall { expected: required as usize, actual: data.len() });
        }
        Ok(())
    }
}

impl IccProfile {
    /// The tag with signature `sig`, if present.
    pub fn get_tag(&self, sig: TagSignature) -> (r: Option<&TagData>)
        ensures
            lookup_is(self.tags@, sig.0, r),
    {
        self.tags.get(&sig.0)
    }

    fn text_tag(&self, sig: u32) -> (r: Option<String>)
        ensures
            text::opt_chars(r) == tag_text(self.tags@, sig),
    {
        match self.tags.get(&sig) {
            Some(t) => match t.as_text() {
                Some(text) => Some(text::clone_string(&text.text)),
                None => None,
            },
            None => None,
        }
    }

    /// The profile description ('desc' text), if present.
    pub fn description(&self) -> (r: Option<String>)
        ensures
            text::opt_chars(r) == tag_text(self.tags@, four_cc(seq!['d', 'e', 's', 'c'])),
    {
        self.text_tag(0x64657363)
    }

    /// The copyright text ('cprt'), if present.
    pub fn copyright(&self) -> (r: Option<String>)
        ensures
            text::opt_chars(r) == tag_text(self.tags@, four_cc(seq!['c', 'p', 'r', 't'])),
    {
        self.text_tag(0x63707274)
    }

    fn first_xyz(&self, sig: u32) -> (r: Option<XyzNumber>)
        ensures
            r == tag_first_xyz(self.tags@, sig),
    {
        match self.tags.get(&sig) {
            Some(t) => match t.as_xyz() {
                Some(x) => match x.first() {
                    Some(v) => Some(*v),
                    None => None,
                },
                None => None,
            },
            None => None,
        }
    }

    /// The red colorant ('rXYZ'), if present.
    pub fn red_colorant(&self) -> (r: Option<XyzNumber>)
        ensures
            r == tag_first_xyz(self.tags@, four_cc(seq!['r', 'X', 'Y', 'Z'])),
    {
        self.first_xyz(0x7258595a)
    }

    /// The red, green and blue colorants, which are the columns of the profile's
    /// RGB-to-XYZ matrix; the first one missing gives `MissingTag` with its signature.
    pub fn colorant_columns(&self) -> (r: Result<(XyzNumber, XyzNumber, XyzNumber), IccError>)
        ensures
            match (tag_first_xyz(self.tags@, four_cc(seq!['r', 'X', 'Y', 'Z'])), tag_first_xyz(self.tags@, four_cc(seq!['g', 'X', 'Y', 'Z'])),
                tag_first_xyz(self.tags@, four_cc(seq!['b', 'X', 'Y', 'Z']))) {
                (Some(red), Some(green), Some(blue)) => r == Ok::<
                    (XyzNumber, XyzNumber, XyzNumber),
                    IccError,
                >((red, green, blue)),
                (None, _, _) => r == Err::<(XyzNumber, XyzNumber, XyzNumber), IccError>(
                    IccError::MissingTag(four_cc(seq!['r', 'X', 'Y', 'Z'])),
                ),
                (Some(_), None, _) => r == Err::<(XyzNumber, XyzNumber, XyzNumber), IccError>(
                    IccError::MissingTag(four_cc(seq!['g', 'X', 'Y', 'Z'])),
                ),
                (Some(_), Some(_), None) => r == Err::<
                    (XyzNumber, XyzNumber, XyzNumber),
                    IccError,
                >(IccError::MissingTag(four_cc(seq!['b', 'X', 'Y', 'Z']))),
            },
    {
        let red = match self.first_xyz(0x7258595a) {
            Some(x) => x,
            None => return Err(IccError::MissingTag(0x7258595a)),
        };
        let green = match self.first_xyz(0x6758595a) {
            Some(x) => x,
            None => return Err(IccError::MissingTag(0x6758595a)),
        };
        let blue = match self.first_xyz(0x6258595a) {
            Some(x) => x,
            None => return Err(IccError::MissingTag(0x6258595a)),
        };
        Ok((red, green, blue))
    }

    /// The green colorant ('gXYZ'), if present.
    pub fn green_colorant(&self) -> (r: Option<XyzNumber>)
        ensures
            r == tag_first_xyz(self.tags@, four_cc(seq!['g', 'X', 'Y', 'Z'])),
    {
        self.first_xyz(0x6758595a)
    }

    /// The blue colorant ('bXYZ'), if present.
    pub fn blue_colorant(&self) -> (r: Option<XyzNumber>)
        ensures
            r == tag_first_xyz(self.tags@, four_cc(seq!['b', 'X', 'Y', 'Z'])),
    {
        self.first_xyz(0x6258595a)
    }

    /// The media white point ('wtpt'), if present.
    pub fn media_white_point(&self) -> (r: Option<XyzNumber>)
        ensures
            r == tag_first_xyz(self.tags@, four_cc(seq!['w', 't', 'p', 't'])),
    {
        self.first_xyz(0x77747074)
    }

    /// The media black point ('bkpt'), if present.
    pub fn media_black_point(&self) -> (r: Option<XyzNumber>)
        ensures
            r == tag_first_xyz(self.tags@, four_cc(seq!['b', 'k', 'p', 't'])),
    {
        self.first_xyz(0x626b7074)
    }

    fn curve_tag(&self, sig: u32) -> (r: Option<&CurveData>)
        ensures
            match r {
                Some(c) => self.tags@.contains_key(sig) && self.tags@[sig] == TagData::Curve(*c),
                None => !(self.tags@.contains_key(sig) && self.tags@[sig] is Curve),
            },
    {
        match self.tags.get(&sig) {
            Some(t) => t.as_curve(),
            None => None,
        }
    }

    /// The red tone reproduction curve ('rTRC'), if it is a `curv` tag.
    pub fn red_trc(&self) -> (r: Option<&CurveData>)
        ensures
            match r {
                Some(c) => self.tags@.contains_key(four_cc(seq!['r', 'T', 'R', 'C'])) && self.tags@[four_cc(seq!['r', 'T', 'R', 'C'])]
                    == TagData::Curve(*c),
                None => !(self.tags@.contains_key(four_cc(seq!['r', 'T', 'R', 'C'])) && self.tags@[four_cc(seq!['r', 'T', 'R', 'C'])] is Curve),
            },
    {
        self.curve_tag(0x72545243)
    }

    /// The green tone reproduction curve ('gTRC'), if it is a `curv` tag.
    pub fn green_trc(&self) -> (r: Option<&CurveData>)
        ensures
            match r {
                Some(c) => self.tags@.contains_key(four_cc(seq!['g', 'T', 'R', 'C'])) && self.tags@[four_cc(seq!['g', 'T', 'R', 'C'])]
                    == TagData::Curve(*c),
                None => !(self.tags@.contains_key(four_cc(seq!['g', 'T', 'R', 'C'])) && self.tags@[four_cc(seq!['g', 'T', 'R', 'C'])] is Curve),
            },
    {
        self.curve_tag(0x67545243)
    }

    /// The blue tone reproduction curve ('bTRC'), if it is a `curv` tag.
    pub fn blue_trc(&self) -> (r: Option<&CurveData>)
        ensures
            match r {
                Some(c) => self.tags@.contains_key(four_cc(seq!['b', 'T', 'R', 'C'])) && self.tags@[four_cc(seq!['b', 'T', 'R', 'C'])]
                    == TagData::Curve(*c),
                None => !(self.tags@.contains_key(four_cc(seq!['b', 'T', 'R', 'C'])) && self.tags@[four_cc(seq!['b', 'T', 'R', 'C'])] is Curve),
            },
    {
        self.curve_tag(0x62545243)
    }

    /// The gray tone reproduction curve ('kTRC'), if it is a `curv` tag.
    pub fn gray_trc(&self) -> (r: Option<&CurveData>)
        ensures
            match r {
                Some(c) => self.tags@.contains_key(four_cc(seq!['k', 'T', 'R', 'C'])) && self.tags@[four_cc(seq!['k', 'T', 'R', 'C'])]
                    == TagData::Curve(*c),
                None => !(self.tags@.contains_key(four_cc(seq!['k', 'T', 'R', 'C'])) && self.tags@[four_cc(seq!['k', 'T', 'R', 'C'])] is Curve),
            },
    {
        self.curve_tag(0x6b545243)
    }

    /// Whether this is a matrix/TRC profile: an RGB display, input or output profile with all
    /// three colorant and all three TRC tags.
    pub fn is_matrix_shaper(&self) -> (r: bool)
        ensures
            r == (spec_is_matrix_shaper_header(self.header) && self.tags@.contains_key(four_cc(seq!['r', 'X', 'Y', 'Z']))
                && self.tags@.contains_key(four_cc(seq!['g', 'X', 'Y', 'Z'])) && self.tags@.contains_key(four_cc(seq!['b', 'X', 'Y', 'Z']))
                && self.tags@.contains_key(four_cc(seq!['r', 'T', 'R', 'C'])) && self.tags@.contains_key(four_cc(seq!['g', 'T', 'R', 'C']))
                && self.tags@.contains_key(four_cc(seq!['b', 'T', 'R', 'C']))),
    {
        self.header.is_matrix_shaper() && self.tags.contains_key(&0x7258595a)
            && self.tags.contains_key(&0x6758595a) && self.tags.contains_key(&0x6258595a)
            && self.tags.contains_key(&0x72545243) && self.tags.contains_key(&0x67545243)
            && self.tags.contains_key(&0x62545243)
    }

    /// Whether the profile has an A2B0 or B2A0 tag.
    pub fn is_lut_based(&self) -> (r: bool)
        ensures
            r == (self.tags@.contains_key(four_cc(seq!['A', '2', 'B', '0'])) || self.tags@.contains_key(four_cc(seq!['B', '2', 'A', '0']))),
    {
        self.tags.contains_key(&0x41324230) || self.tags.contains_key(&0x42324130)
    }

    /// Whether the data colour space is CMYK.
    pub fn is_cmyk(&self) -> (r: bool)
        ensures
            r == (self.header.color_space is Cmyk),
    {
        matches!(self.header.color_space, ColorSpace::Cmyk)
    }

    /// The A2B0 tag (device to PCS, perceptual intent).
    pub fn a2b0(&self) -> (r: Option<&TagData>)
        ensures
            lookup_is(self.tags@, four_cc(seq!['A', '2', 'B', '0']), r),
    {
        self.tags.get(&0x41324230)
    }

    /// The A2B1 tag (device to PCS, relative colorimetric intent).
    pub fn a2b1(&self) -> (r: Option<&TagData>)
        ensures
            lookup_is(self.tags@, four_cc(seq!['A', '2', 'B', '1']), r),
    {
        self.tags.get(&0x41324231)
    }

    /// The A2B2 tag (device to PCS, saturation intent).
    pub fn a2b2(&self) -> (r: Option<&TagData>)
        ensures
            lookup_is(self.tags@, four_cc(seq!['A', '2', 'B', '2']), r),
    {
        self.tags.get(&0x41324232)
    }

    /// The B2A0 tag (PCS to device, perceptual intent).
    pub fn b2a0(&self) -> (r: Option<&TagData>)
        ensures
            lookup_is(self.tags@, four_cc(seq!['B', '2', 'A', '0']), r),
    {
        self.tags.get(&0x42324130)
    }

    /// The B2A1 tag (PCS to device, relative colorimetric intent).
    pub fn b2a1(&self) -> (r: Option<&TagData>)
        ensures
            lookup_is(self.tags@, four_cc(seq!['B', '2', 'A', '1']), r),
    {
        self.tags.get(&0x42324131)
    }

    /// The B2A2 tag (PCS to device, saturation intent).
    pub fn b2a2(&self) -> (r: Option<&TagData>)
        ensures
            lookup_is(self.tags@, four_cc(seq!['B', '2', 'A', '2']), r),
    {
        self.tags.get(&0x42324132)
    }

    /// The A2B tag for a rendering intent (colorimetric intents use A2B1, saturation A2B2,
    /// each falling back to A2B0).
    pub fn a2b_for_intent(&self, intent: RenderingIntent) -> (r: Option<&TagData>)
        ensures
            match r {
                Some(t) => intent_tag(self.tags@, four_cc(seq!['A', '2', 'B', '0']), intent) == Some(*t),
                None => intent_tag(self.tags@, four_cc(seq!['A', '2', 'B', '0']), intent) is None,
            },
    {
        match intent {
            RenderingIntent::Perceptual => self.a2b0(),
            RenderingIntent::RelativeColorimetric | RenderingIntent::AbsoluteColorimetric => {
                match self.a2b1() {
                    Some(t) => Some(t),
                    None => self.a2b0(),
                }
            },
            RenderingIntent::Saturation => match self.a2b2() {
                Some(t) => Some(t),
                None => self.a2b0(),
            },
        }
    }

    /// The B2A tag for a rendering intent (colorimetric intents use B2A1, saturation B2A2,
    /// each falling back to B2A0).
    pub fn b2a_for_intent(&self, intent: RenderingIntent) -> (r: Option<&TagData>)
        ensures
            match r {
                Some(t) => intent_tag(self.tags@, four_cc(seq!['B', '2', 'A', '0']), intent) == Some(*t),
                None => intent_tag(self.tags@, four_cc(seq!['B', '2', 'A', '0']), intent) is None,
            },
    {
        match intent {
            RenderingIntent::Perceptual => self.b2a0(),
            RenderingIntent::RelativeColorimetric | RenderingIntent::AbsoluteColorimetric => {
                match self.b2a1() {
                    Some(t) => Some(t),
                    None => self.b2a0(),
                }
            },
            RenderingIntent::Saturation => match self.b2a2() {
                Some(t) => Some(t),
                None => self.b2a0(),
            },
        }
    }

    /// The number of channels of the data colour space.
    pub fn input_channels(&self) -> (r: usize)
        ensures
            r == header::color_space_channels(self.header.color_space),
    {
        self.header.color_space.channels()
    }

    /// The number of channels of the profile connection space.
    pub fn pcs_channels(&self) -> (r: usize)
        ensures
            r == header::color_space_channels(self.header.pcs),
    {
        self.header.pcs.channels()
    }

    /// The raw profile bytes.
    pub fn raw_data(&self) -> (r: &[u8])
        ensures
            r@ == self.raw_data@,
    {
        self.raw_data.as_slice()
    }

    /// The number of distinct tag signatures.
    pub fn tag_count(&self) -> (r: usize)
        ensures
            r == self.tags@.len(),
    {
        self.tags.len()
    }

    /// The tag signatures, each once, in no particular order.
    pub fn tag_signatures(&self) -> (r: Vec<TagSignature>)
        ensures
            r@.len() == self.tags@.len(),
            forall|i: int| 0 <= i < r@.len() ==> self.tags@.contains_key(#[trigger] r@[i].0),
            forall|s: u32| self.tags@.contains_key(s) ==> exists|i: int|
                0 <= i < r@.len() && #[trigger] r@[i].0 == s,
            forall|i: int, j: int| 0 <= i < j < r@.len() ==> r@[i].0 != r@[j].0,
    {
        let mut out: Vec<TagSignature> = Vec::new();
        let ghost rem = vstd::std_specs::hash::spec_keys_iter(&self.tags).remaining();
        let ghost keys = rem.unref();
        assert(keys.to_set() == self.tags@.dom());
        assert(keys.no_duplicates()) by {
            assert forall|i: int, j: int|
                0 <= i < rem.len() && 0 <= j < rem.len() && i != j implies keys[i] != keys[j] by {
                assert(rem[i] != rem[j]);
            }
        }
        assert(keys.len() == self.tags@.len());
        for k in it: self.tags.keys()
            invariant
                keys.to_set() == self.tags@.dom(),
                keys.no_duplicates(),
                keys.len() == self.tags@.len(),
                keys == it.seq().unref(),
                out@.len() == it.index(),
                forall|i: int| 0 <= i < it.index() ==> #[trigger] out@[i].0 == keys[i],
        {
            out.push(TagSignature(*k));
        }
        proof {
            assert forall|s: u32| self.tags@.contains_key(s) implies exists|i: int|
                0 <= i < out@.len() && #[trigger] out@[i].0 == s by {
                assert(keys.to_set().contains(s));
                let i = choose|i: int| 0 <= i < keys.len() && keys[i] == s;
                assert(out@[i].0 == s);
            }
            assert forall|i: int| 0 <= i < out@.len() implies self.tags@.contains_key(
                #[trigger] out@[i].0,
            ) by {
                assert(keys.to_set().contains(keys[i]));
            }
            assert forall|i: int, j: int| 0 <= i < j < out@.len() implies out@[i].0 != out@[j].0 by {
                assert(keys[i] != keys[j]);
            }
        }
        out
    }

    /// The chromatic adaptation matrix ('chad' tag), if it is an `sf32` tag.
    pub fn chromatic_adaptation_matrix(&self) -> (r: Option<[[S15Fixed16; 3]; 3]>)
        ensures
            match r {
                Some(m) => self.tags@.contains_key(four_cc(seq!['c', 'h', 'a', 'd'])) && self.tags@[four_cc(seq!['c', 'h', 'a', 'd'])]
                    == TagData::ChromaticAdaptation(m),
                None => !(self.tags@.contains_key(four_cc(seq!['c', 'h', 'a', 'd'])) && self.tags@[four_cc(seq!['c', 'h', 'a', 'd'])] is ChromaticAdaptation),
            },
    {
        match self.tags.get(&0x63686164) {
            Some(TagData::ChromaticAdaptation(m)) => Some(*m),
            _ => None,
        }
    }
}

/// Once reading the table stops (out of bounds or aborted), reading more entries stops there.
proof fn lemma_scan_stops(data: Seq<u8>, k: nat, n: nat)
    requires
        k <= n,
        !(scan_tags(data, k) is Tags),
    ensures
        scan_tags(data, n) == scan_tags(data, k),
    decreases n - k,
{
    if k < n {
        lemma_scan_stops(data, k, (n - 1) as nat);
    }
}

} // verus!
