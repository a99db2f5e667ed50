//! Text tag types (ICC.1:2022 sections 10.24 `text`, 10.14 `desc`, 10.15 `mluc`).

use vstd::prelude::*;

use super::{corrupted, result_is, SpecParse};
use crate::icc::bytes::{be_u16, be_u32, read_u16_be, read_u32_be};
use crate::icc::error::IccError;
use crate::icc::header::slice_range;

verus! {

/// UTF-16 decoding: a code unit outside the surrogate range 0xD800 to 0xDFFF is the
/// character of that code point; a high surrogate (0xD800 to 0xDBFF) followed by a low one
/// (0xDC00 to 0xDFFF) is the character 0x10000 + (high - 0xD800) * 0x400 + (low - 0xDC00);
/// any other surrogate makes the units invalid (`None`).
pub open spec fn utf16_decode(units: Seq<u16>) -> Option<Seq<char>>
    decreases units.len(),
{
    if units.len() == 0 {
        Some(Seq::empty())
    } else if units[0] < 0xD800 || units[0] >= 0xE000 {
        match utf16_decode(units.drop_first()) {
            Some(rest) => Some(seq![units[0] as char] + rest),
            None => None,
        }
    } else if units[0] < 0xDC00 && units.len() >= 2 && 0xDC00 <= units[1] && units[1] < 0xE000 {
        let c = 0x10000 + (units[0] - 0xD800) * 0x400 + (units[1] - 0xDC00);
        match utf16_decode(units.skip(2)) {
            Some(rest) => Some(seq![c as char] + rest),
            None => None,
        }
    } else {
        None
    }
}

/// No code unit lies in the surrogate range 0xD800 to 0xDFFF.
pub open spec fn no_surrogates(units: Seq<u16>) -> bool {
    forall|i: int| 0 <= i < units.len() ==> (units[i] < 0xD800 || units[i] >= 0xE000)
}

/// The characters whose code points are the units, one for one.
pub open spec fn bmp_chars(units: Seq<u16>) -> Seq<char> {
    units.map_values(|u: u16| u as char)
}

/// Units without surrogates decode one for one to the characters of their code points.
pub proof fn utf16_decode_without_surrogates(units: Seq<u16>)
    requires
        no_surrogates(units),
    ensures
        utf16_decode(units) == Some(bmp_chars(units)),
    decreases units.len(),
{
    if units.len() > 0 {
        let rest = units.drop_first();
        assert forall|i: int| 0 <= i < rest.len() implies (rest[i] < 0xD800 || rest[i] >= 0xE000) by {
            assert(rest[i] == units[i + 1]);
        }
        utf16_decode_without_surrogates(rest);
        assert(bmp_chars(units) =~= seq![units[0] as char] + bmp_chars(rest));
    }
}

/// Wraps `String::from_utf16`, which decodes UTF-16 code units (as [`utf16_decode`] states
/// the encoding) and refuses units that are not valid UTF-16.
#[verifier::external_body]
fn string_from_utf16(units: &[u16]) -> (r: Option<String>)
    ensures
        r is Some <==> utf16_decode(units@) is Some,
        r matches Some(s) ==> utf16_decode(units@) == Some(s@),
{
    String::from_utf16(units).ok()
}

/// Wraps `str::starts_with` with a string pattern: whether `prefix` is a prefix of `s`.
#[verifier::external_body]
fn str_starts_with(s: &str, prefix: &str) -> (r: bool)
    ensures
        r == (prefix@.len() <= s@.len() && s@.take(prefix@.len() as int) == prefix@),
{
    s.starts_with(prefix)
}

/// A copy of a string.
pub(crate) fn clone_string(s: &String) -> (r: String)
    ensures
        r@ == s@,
{
    s.clone()
}

/// The index of the first element at or after `i` that equals `z`, or the length.
pub open spec fn stop_index<T>(s: Seq<T>, z: T, i: int) -> int
    decreases s.len() - i,
{
    if i >= s.len() {
        i
    } else if s[i] == z {
        i
    } else {
        stop_index(s, z, i + 1)
    }
}

/// The elements of `s` before the first one equal to `z`.
pub open spec fn before_stop<T>(s: Seq<T>, z: T) -> Seq<T> {
    s.take(stop_index(s, z, 0))
}

/// Each byte as the character with the same code (Latin-1).
pub open spec fn byte_chars(b: Seq<u8>) -> Seq<char> {
    b.map_values(|x: u8| x as char)
}

/// A NUL-terminated single-byte string: the bytes before the first zero, one character each.
pub open spec fn c_text(b: Seq<u8>) -> Seq<char> {
    byte_chars(before_stop(b, 0u8))
}

/// The big-endian UTF-16 code units of a byte string (a trailing odd byte is not one).
pub open spec fn utf16be_units(b: Seq<u8>) -> Seq<u16> {
    Seq::new(b.len() / 2, |i: int| be_u16(b, 2 * i))
}

/// Decoding big-endian UTF-16 bytes: `None` for an odd length; otherwise the decoding of the
/// code units before the first zero unit.
pub open spec fn decode_utf16be_spec(b: Seq<u8>) -> Option<Seq<char>> {
    if b.len() % 2 != 0 {
        None
    } else {
        utf16_decode(before_stop(utf16be_units(b), 0u16))
    }
}

/// The model of text tag data: the primary text and the (locale, text) pairs.
pub ghost struct TextModel {
    pub text: Seq<char>,
    pub localized: Seq<(Seq<char>, Seq<char>)>,
}

/// The characters of each (locale, text) pair.
pub open spec fn pairs_view(v: Seq<(String, String)>) -> Seq<(Seq<char>, Seq<char>)> {
    v.map_values(|p: (String, String)| (p.0@, p.1@))
}

/// Text tag data
#[derive(Debug, Clone)]
pub struct TextData {
    /// Primary text content (English or default)
    pub text: String,
    /// Localized versions (language code -> text)
    pub localized: Vec<(String, String)>,
}

impl View for TextData {
    type V = TextModel;

    open spec fn view(&self) -> TextModel {
        TextModel { text: self.text@, localized: pairs_view(self.localized@) }
    }
}

/// Parsing a `text` body: the characters before the first NUL.
pub open spec fn text_spec(data: Seq<u8>) -> SpecParse<TextModel> {
    SpecParse::Parsed(TextModel { text: c_text(data), localized: Seq::empty() })
}

/// Parsing a `desc` body: a u32 count, then the NUL-terminated ASCII description within that
/// many bytes.
pub open spec fn desc_spec(data: Seq<u8>) -> SpecParse<TextModel> {
    if data.len() < 4 {
        SpecParse::Failed("Description tag too small"@)
    } else if data.len() < 4 + be_u32(data, 0) {
        SpecParse::Failed("Description ASCII data truncated"@)
    } else {
        SpecParse::Parsed(
            TextModel {
                text: c_text(data.subrange(4, 4 + be_u32(data, 0))),
                localized: Seq::empty(),
            },
        )
    }
}

/// The byte offset of `mluc` record `i`.
pub open spec fn mluc_record_offset(data: Seq<u8>, i: int) -> int {
    8 + i * be_u32(data, 4)
}

/// The index of the first record at or after `i` that is beyond the record count or does not
/// fit in the data; records are read up to there.
pub open spec fn mluc_scan(data: Seq<u8>, i: int) -> int
    decreases be_u32(data, 0) - i,
{
    if i >= be_u32(data, 0) || data.len() < mluc_record_offset(data, i) + 12 {
        i
    } else {
        mluc_scan(data, i + 1)
    }
}

/// Records are read at least up to where the scan starts.
proof fn lemma_mluc_scan_ge(data: Seq<u8>, i: int)
    ensures
        mluc_scan(data, i) >= i,
    decreases be_u32(data, 0) - i,
{
    if !(i >= be_u32(data, 0) || data.len() < mluc_record_offset(data, i) + 12) {
        lemma_mluc_scan_ge(data, i + 1);
    }
}

/// The locale of `mluc` record `i`: language, '-', country.
pub open spec fn mluc_locale(data: Seq<u8>, i: int) -> Seq<char> {
    let o = mluc_record_offset(data, i);
    seq![data[o] as char, data[o + 1] as char, '-', data[o + 2] as char, data[o + 3] as char]
}

/// The text of `mluc` record `i`: the UTF-16BE string it points at, when that lies within the
/// data, is at least two bytes and decodes.
pub open spec fn mluc_text(data: Seq<u8>, i: int) -> Option<Seq<char>> {
    let o = mluc_record_offset(data, i);
    let len = be_u32(data, o + 4) as int;
    let off = be_u32(data, o + 8) as int;
    if off + len <= data.len() && len >= 2 {
        decode_utf16be_spec(data.subrange(off, off + len))
    } else {
        None
    }
}

/// The (locale, decoded text) of every record read.
pub open spec fn mluc_entries(data: Seq<u8>) -> Seq<(Seq<char>, Option<Seq<char>>)> {
    Seq::new(mluc_scan(data, 0) as nat, |i: int| (mluc_locale(data, i), mluc_text(data, i)))
}

/// The pairs of the entries whose text decoded, in order.
pub open spec fn decoded_pairs(es: Seq<(Seq<char>, Option<Seq<char>>)>) -> Seq<
    (Seq<char>, Seq<char>),
>
    decreases es.len(),
{
    if es.len() == 0 {
        Seq::empty()
    } else {
        let rest = decoded_pairs(es.drop_last());
        match es.last().1 {
            Some(t) => rest.push((es.last().0, t)),
            None => rest,
        }
    }
}

/// The first non-empty text among the pairs, or the empty text.
pub open spec fn first_nonempty_text(ps: Seq<(Seq<char>, Seq<char>)>) -> Seq<char>
    decreases ps.len(),
{
    if ps.len() == 0 {
        Seq::empty()
    } else {
        let p = first_nonempty_text(ps.drop_last());
        if p.len() > 0 {
            p
        } else {
            ps.last().1
        }
    }
}

/// Text data from `mluc` entries: the decoded pairs, and the first non-empty text as the
/// primary text.
pub open spec fn mluc_assemble(es: Seq<(Seq<char>, Option<Seq<char>>)>) -> TextModel {
    TextModel { text: first_nonempty_text(decoded_pairs(es)), localized: decoded_pairs(es) }
}

/// Parsing an `mluc` body: record count, record size (at least 12), then the records read
/// while they fit.
pub open spec fn mluc_spec(data: Seq<u8>) -> SpecParse<TextModel> {
    if data.len() < 8 {
        SpecParse::Failed("mluc tag too small"@)
    } else if be_u32(data, 4) < 12 {
        SpecParse::Failed("mluc record size too small"@)
    } else {
        SpecParse::Parsed(mluc_assemble(mluc_entries(data)))
    }
}

/// The characters of an optional string.
pub open spec fn opt_chars(o: Option<String>) -> Option<Seq<char>> {
    match o {
        Some(s) => Some(s@),
        None => None,
    }
}

/// The characters of each (locale, optional text) entry.
pub open spec fn entries_view(v: Seq<(String, Option<String>)>) -> Seq<
    (Seq<char>, Option<Seq<char>>),
> {
    v.map_values(|e: (String, Option<String>)| (e.0@, opt_chars(e.1)))
}

/// The index of the first pair at or after `i` whose locale starts with `lang`, or the length.
pub open spec fn locale_index(ps: Seq<(Seq<char>, Seq<char>)>, lang: Seq<char>, i: int) -> int
    decreases ps.len() - i,
{
    if i >= ps.len() {
        i
    } else if lang.len() <= ps[i].0.len() && ps[i].0.take(lang.len() as int) == lang {
        i
    } else {
        locale_index(ps, lang, i + 1)
    }
}

/// The characters of `data` before its first zero byte.
pub fn c_string(data: &[u8]) -> (s: String)
    ensures
        s@ == c_text(data@),
{
    let len = data.len();
    let mut s = String::new();
    let mut i: usize = 0;
    while i < len && data[i] != 0
        invariant
            len == data@.len(),
            i <= len,
            s@ == byte_chars(data@.take(i as int)),
            stop_index(data@, 0u8, 0) == stop_index(data@, 0u8, i as int),
        decreases len - i,
    {
        let c = data[i] as char;
        s.push(c);
        assert(data@.take(i as int + 1) =~= data@.take(i as int).push(data@[i as int]));
        i = i + 1;
        assert(s@ =~= byte_chars(data@.take(i as int)));
    }
    s
}

/// Decodes big-endian UTF-16 bytes up to the first zero unit; `None` for an odd length or
/// units that are not valid UTF-16. Units outside the surrogate range are characters of
/// their own code point.
pub fn decode_utf16be(data: &[u8]) -> (r: Option<String>)
    ensures
        opt_chars(r) == decode_utf16be_spec(data@),
        data@.len() % 2 == 0 && no_surrogates(before_stop(utf16be_units(data@), 0u16)) ==> (
        r matches Some(s) && s@ == bmp_chars(before_stop(utf16be_units(data@), 0u16))),
{
    let len = data.len();
    if len % 2 != 0 {
        return None;
    }
    let n = len / 2;
    let ghost all = utf16be_units(data@);
    let mut units: Vec<u16> = Vec::new();
    let mut i: usize = 0;
    while i < n
        invariant_except_break
            len == data@.len(),
            n == len / 2,
            all == utf16be_units(data@),
            i <= n,
            units@ == all.take(i as int),
            stop_index(all, 0u16, 0) == stop_index(all, 0u16, i as int),
        ensures
            units@ == before_stop(all, 0u16),
        decreases n - i,
    {
        let u = read_u16_be(data, 2 * i);
        if u == 0 {
            break;
        }
        units.push(u);
        assert(all.take(i as int + 1) =~= all.take(i as int).push(all[i as int]));
        i = i + 1;
    }
    proof {
        if no_surrogates(units@) {
            utf16_decode_without_surrogates(units@);
        }
    }
    match string_from_utf16(units.as_slice()) {
        Some(s) => Some(s),
        None => None,
    }
}

impl TextData {
    /// Text data with the given primary text and no localized versions.
    pub fn new(text: String) -> (r: Self)
        ensures
            r.text == text,
            r.localized@.len() == 0,
    {
        TextData { text, localized: Vec::new() }
    }

    /// Parses a `text` body (NUL-terminated single-byte text).
    pub fn parse_text(data: &[u8]) -> (r: Result<Self, IccError>)
        ensures
            result_is(r, text_spec(data@)),
    {
        let r = TextData::new(c_string(data));
        assert(r@.localized =~= Seq::<(Seq<char>, Seq<char>)>::empty());
        assert(r@ == TextModel { text: c_text(data@), localized: Seq::empty() });
        Ok(r)
    }

    /// Parses a `desc` body (the ASCII part of a v2 profile description).
    pub fn parse_desc(data: &[u8]) -> (r: Result<Self, IccError>)
        ensures
            result_is(r, desc_spec(data@)),
    {
        if data.len() < 4 {
            return Err(corrupted("Description tag too small"));
        }
        let ascii_count = read_u32_be(data, 0) as usize;
        if data.len() - 4 < ascii_count {
            return Err(corrupted("Description ASCII data truncated"));
        }
        let text = c_string(slice_range(data, 4, 4 + ascii_count));
        let r = TextData::new(text);
        assert(r@.localized =~= Seq::<(Seq<char>, Seq<char>)>::empty());
        Ok(r)
    }

    /// Text data from `mluc` entries (locale and decoded text, if it decoded): the entries
    /// that decoded become the localized versions, and the first non-empty text the primary
    /// one.
    pub fn from_mluc_entries(entries: &Vec<(String, Option<String>)>) -> (r: Self)
        ensures
            r@ == mluc_assemble(entries_view(entries@)),
    {
        let ghost es = entries_view(entries@);
        let mut localized: Vec<(String, String)> = Vec::new();
        let mut primary = String::new();
        let mut i: usize = 0;
        while i < entries.len()
            invariant
                es == entries_view(entries@),
                i <= entries@.len(),
                pairs_view(localized@) == decoded_pairs(es.take(i as int)),
                primary@ == first_nonempty_text(decoded_pairs(es.take(i as int))),
            decreases entries@.len() - i,
        {
            let ghost before = es.take(i as int);
            assert(es.take(i as int + 1).drop_last() =~= before);
            assert(es.take(i as int + 1).last() == es[i as int]);
            let entry = &entries[i];
            match &entry.1 {
                Some(text) => {
                    if primary.as_str().is_empty() {
                        primary = clone_string(text);
                    }
                    let locale = clone_string(&entry.0);
                    let t = clone_string(text);
                    localized.push((locale, t));
                    assert(pairs_view(localized@) =~= decoded_pairs(before).push(
                        (entry.0@, text@),
                    ));
                    assert(decoded_pairs(before).push((entry.0@, text@)).drop_last()
                        =~= decoded_pairs(before));
                },
                None => {},
            }
            i = i + 1;
        }
        assert(es.take(i as int) =~= es);
        TextData { text: primary, localized }
    }

    /// Parses an `mluc` body (multi-localized Unicode text).
    pub fn parse_mluc(data: &[u8]) -> (r: Result<Self, IccError>)
        ensures
            result_is(r, mluc_spec(data@)),
    {
        let len = data.len();
        if len < 8 {
            return Err(corrupted("mluc tag too small"));
        }
        let record_count = read_u32_be(data, 0);
        let record_size = read_u32_be(data, 4);
        if record_size < 12 {
            return Err(corrupted("mluc record size too small"));
        }
        let ghost target = mluc_entries(data@);
        let mut entries: Vec<(String, Option<String>)> = Vec::new();
        let mut i: u32 = 0;
        while i < record_count
            invariant_except_break
                len == data@.len(),
                len >= 8,
                record_count == be_u32(data@, 0),
                record_size == be_u32(data@, 4),
                record_size >= 12,
                i <= record_count,
                mluc_scan(data@, 0) == mluc_scan(data@, i as int),
                entries_view(entries@) == target.take(i as int),
                target == mluc_entries(data@),
            ensures
                entries_view(entries@) == target,
            decreases record_count - i,
        {
            assert((i as u64) * (record_size as u64) <= 0xFFFF_FFFE_0000_0001u64) by (nonlinear_arith)
                requires
                    i <= 0xFFFF_FFFFu32,
                    record_size <= 0xFFFF_FFFFu32,
            ;
            let record_offset: u64 = 8 + (i as u64) * (record_size as u64);
            if (len as u64) < record_offset + 12 {
                assert(mluc_scan(data@, i as int) == i);
                assert(target.len() == i);
                assert(target.take(i as int) =~= target);
                break;
            }
            let o = record_offset as usize;
            let mut locale = String::new();
            locale.push(data[o] as char);
            locale.push(data[o + 1] as char);
            locale.push('-');
            locale.push(data[o + 2] as char);
            locale.push(data[o + 3] as char);
            let str_len = read_u32_be(data, o + 4) as u64;
            let str_offset = read_u32_be(data, o + 8) as u64;
            let text = if str_offset + str_len <= len as u64 && str_len >= 2 {
                decode_utf16be(slice_range(data, str_offset as usize, (str_offset + str_len) as usize))
            } else {
                None
            };
            proof {
                assert(mluc_scan(data@, i as int) == mluc_scan(data@, i as int + 1));
                lemma_mluc_scan_ge(data@, i as int + 1);
                assert(locale@ =~= mluc_locale(data@, i as int));
                assert(record_offset == mluc_record_offset(data@, i as int));
                assert(opt_chars(text) == mluc_text(data@, i as int));
                assert(target[i as int] == (locale@, opt_chars(text)));
            }
            entries.push((locale, text));
            assert(entries_view(entries@) =~= target.take(i as int + 1));
            i = i + 1;
        }
        let r = TextData::from_mluc_entries(&entries);
        Ok(r)
    }

    /// The text of the first localized version whose locale starts with `lang`.
    pub fn get_locale(&self, lang: &str) -> (r: Option<&str>)
        ensures
            ({
                let ps = pairs_view(self.localized@);
                let k = locale_index(ps, lang@, 0);
                &&& k >= ps.len() ==> r is None
                &&& k < ps.len() ==> (r matches Some(s) && s@ == ps[k].1)
            }),
    {
        let ghost ps = pairs_view(self.localized@);
        let mut i: usize = 0;
        while i < self.localized.len()
            invariant
                ps == pairs_view(self.localized@),
                i <= ps.len(),
                locale_index(ps, lang@, 0) == locale_index(ps, lang@, i as int),
            decreases ps.len() - i,
        {
            let pair = &self.localized[i];
            if str_starts_with(pair.0.as_str(), lang) {
                return Some(pair.1.as_str());
            }
            i = i + 1;
        }
        None
    }
}

/// An entry whose text decoded leads the decoded pairs when it is the first entry.
proof fn lemma_first_decoded_pair(es: Seq<(Seq<char>, Option<Seq<char>>)>, t: Seq<char>)
    requires
        es.len() >= 1,
        es[0].1 == Some(t),
    ensures
        decoded_pairs(es).len() >= 1,
        decoded_pairs(es)[0] == (es[0].0, t),
    decreases es.len(),
{
    if es.len() > 1 {
        let d = es.drop_last();
        assert(d[0] == es[0]);
        lemma_first_decoded_pair(d, t);
        let rest = decoded_pairs(d);
        match es.last().1 {
            Some(u) => assert(rest.push((es.last().0, u))[0] == rest[0]),
            None => {},
        }
    } else {
        assert(es.drop_last().len() == 0);
        assert(decoded_pairs(es.drop_last()) == Seq::<(Seq<char>, Seq<char>)>::empty());
        assert(es.last() == es[0]);
    }
}

/// A non-empty first text is the first non-empty text.
proof fn lemma_first_nonempty_is_first(ps: Seq<(Seq<char>, Seq<char>)>)
    requires
        ps.len() >= 1,
        ps[0].1.len() > 0,
    ensures
        first_nonempty_text(ps) == ps[0].1,
    decreases ps.len(),
{
    if ps.len() > 1 {
        let d = ps.drop_last();
        assert(d[0] == ps[0]);
        lemma_first_nonempty_is_first(d);
    } else {
        assert(ps.drop_last().len() == 0);
        assert(first_nonempty_text(ps.drop_last()) == Seq::<char>::empty());
        assert(ps.last() == ps[0]);
    }
}

/// In an `mluc` body (record count at byte 0, record size at 4, records from 8, each a
/// language code, a country code, the string's length and the string's offset), when the first
/// record's UTF-16BE string decodes to a non-empty text, that text is the primary text, and it
/// is the first localized pair, under the locale language-country of the first record.
pub proof fn mluc_first_record_is_primary(data: Seq<u8>, t: Seq<char>)
    requires
        data.len() >= 20,
        be_u32(data, 0) >= 1,
        be_u32(data, 4) >= 12,
        be_u32(data, 12) >= 2,
        be_u32(data, 16) + be_u32(data, 12) <= data.len(),
        decode_utf16be_spec(data.subrange(be_u32(data, 16) as int, be_u32(data, 16) + be_u32(data, 12)))
            == Some(t),
        t.len() > 0,
    ensures
        mluc_spec(data) is Parsed,
        mluc_spec(data)->Parsed_0.text == t,
        mluc_spec(data)->Parsed_0.localized.len() >= 1,
        mluc_spec(data)->Parsed_0.localized[0] == (
            seq![data[8] as char, data[9] as char, '-', data[10] as char, data[11] as char],
            t,
        ),
{
    lemma_mluc_scan_ge(data, 1);
    assert(mluc_record_offset(data, 0) == 8);
    let es = mluc_entries(data);
    assert(es.len() >= 1);
    assert(es[0].1 == Some(t));
    lemma_first_decoded_pair(es, t);
    lemma_first_nonempty_is_first(decoded_pairs(es));
}

} // verus!
