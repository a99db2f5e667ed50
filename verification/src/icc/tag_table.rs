//! Laws of profile parsing: which byte strings are refused, and what a parsed profile's tags
//! are in terms of its tag table entries.

use vstd::prelude::*;

use super::header::{four_cc, RenderingIntent};
use super::parser::{intent_tag, entry_bytes, entry_offset, entry_sig, entry_size, scan_tags, stored_tag, tag_count_of, tags_view, profile_error, profile_matches, IccProfile, TableScan};
use super::tags::{SpecParse, TagData, TagModel};

verus! {

/// The position of the last of the first `k` tag table entries whose signature is `sig`, or
/// -1 where none of them has it.
pub open spec fn last_entry_for(data: Seq<u8>, sig: u32, k: nat) -> int
    decreases k,
{
    if k == 0 {
        -1
    } else if entry_sig(data, k - 1) == sig {
        k - 1
    } else {
        last_entry_for(data, sig, (k - 1) as nat)
    }
}

/// The tags that reading the table comes to (empty where reading stopped).
pub open spec fn scanned_tags(s: TableScan) -> Map<u32, TagModel> {
    match s {
        TableScan::Tags(m) => m,
        _ => Map::empty(),
    }
}

/// Reading the first `k` entries of the tag table keeps, for each signature, the tag of the
/// last entry that names it, and no signature that no entry names.
pub proof fn scanned_tags_are_last_entries(data: Seq<u8>, k: nat, sig: u32)
    requires
        scan_tags(data, k) is Tags,
    ensures
        scanned_tags(scan_tags(data, k)).contains_key(sig) <==> last_entry_for(data, sig, k) >= 0,
        last_entry_for(data, sig, k) >= 0 ==> stored_tag(
            entry_bytes(data, last_entry_for(data, sig, k)),
        ) == SpecParse::Parsed(scanned_tags(scan_tags(data, k))[sig]),
    decreases k,
{
    if k > 0 {
        let prev = scan_tags(data, (k - 1) as nat);
        assert(prev is Tags);
        scanned_tags_are_last_entries(data, (k - 1) as nat, sig);
    }
}

/// A parsed profile holds, for each signature, the tag of the last tag table entry that names
/// it, and no tag that no entry names.
pub proof fn parsed_profile_tags_are_last_entries(p: IccProfile, data: Seq<u8>, sig: u32)
    requires
        profile_matches(p, data),
    ensures
        p.tags@.contains_key(sig) <==> last_entry_for(data, sig, tag_count_of(data)) >= 0,
        p.tags@.contains_key(sig) ==> stored_tag(
            entry_bytes(data, last_entry_for(data, sig, tag_count_of(data))),
        ) == SpecParse::Parsed(p.tags@[sig]@),
{
    scanned_tags_are_last_entries(data, tag_count_of(data), sig);
    assert(scanned_tags(scan_tags(data, tag_count_of(data))) == tags_view(p.tags@));
}

/// When the first `k` entries of the tag table read to tags, each of those entries lies within
/// the profile and its signature is among the tags read.
pub proof fn scanned_entries_are_in_bounds_and_kept(data: Seq<u8>, k: nat, m: Map<u32, TagModel>, i: int)
    requires
        scan_tags(data, k) == TableScan::Tags(m),
        0 <= i < k,
    ensures
        entry_offset(data, i) + entry_size(data, i) <= data.len(),
        m.dom().contains(entry_sig(data, i)),
    decreases k,
{
    let j = k - 1;
    match scan_tags(data, (k - 1) as nat) {
        TableScan::Tags(prev) => {
            if i < j {
                scanned_entries_are_in_bounds_and_kept(data, (k - 1) as nat, prev, i);
            }
        },
        _ => {},
    }
}

/// Every entry of the tag table of a parsed profile lies within the profile's data, and the
/// profile holds a tag under the signature of each entry.
pub proof fn parsed_profile_holds_every_entry(p: IccProfile, data: Seq<u8>, i: int)
    requires
        profile_matches(p, data),
        0 <= i < tag_count_of(data),
    ensures
        entry_offset(data, i) + entry_size(data, i) <= data.len(),
        p.tags@.dom().contains(entry_sig(data, i)),
{
    scanned_entries_are_in_bounds_and_kept(data, tag_count_of(data), tags_view(p.tags@), i);
}

/// Bytes too few for the header and the tag count are never taken as a profile.
pub proof fn short_data_is_refused(data: Seq<u8>)
    requires
        data.len() < 132,
    ensures
        profile_error(data) is Some,
{
}

/// The tag of `m` under `sig`, if it holds one.
pub open spec fn tag_under(m: Map<u32, TagData>, sig: u32) -> Option<TagData> {
    if m.contains_key(sig) {
        Some(m[sig])
    } else {
        None
    }
}

/// Which A2B table each rendering intent uses: perceptual uses A2B0; relative and absolute
/// colorimetric both use A2B1, and A2B0 only where there is no A2B1; saturation uses A2B2,
/// and A2B0 only where there is no A2B2.
pub proof fn a2b_table_for_each_intent(m: Map<u32, TagData>)
    ensures
        intent_tag(m, four_cc(seq!['A', '2', 'B', '0']), RenderingIntent::Perceptual) == tag_under(m, four_cc(seq!['A', '2', 'B', '0'])),
        intent_tag(m, four_cc(seq!['A', '2', 'B', '0']), RenderingIntent::RelativeColorimetric) == (if m.contains_key(
            four_cc(seq!['A', '2', 'B', '1']),
        ) {
            Some(m[four_cc(seq!['A', '2', 'B', '1'])])
        } else {
            tag_under(m, four_cc(seq!['A', '2', 'B', '0']))
        }),
        intent_tag(m, four_cc(seq!['A', '2', 'B', '0']), RenderingIntent::AbsoluteColorimetric) == (if m.contains_key(
            four_cc(seq!['A', '2', 'B', '1']),
        ) {
            Some(m[four_cc(seq!['A', '2', 'B', '1'])])
        } else {
            tag_under(m, four_cc(seq!['A', '2', 'B', '0']))
        }),
        intent_tag(m, four_cc(seq!['A', '2', 'B', '0']), RenderingIntent::Saturation) == (if m.contains_key(four_cc(seq!['A', '2', 'B', '2'])) {
            Some(m[four_cc(seq!['A', '2', 'B', '2'])])
        } else {
            tag_under(m, four_cc(seq!['A', '2', 'B', '0']))
        }),
{
}

/// Which B2A table each rendering intent uses: perceptual uses B2A0; relative and absolute
/// colorimetric both use B2A1, and B2A0 only where there is no B2A1; saturation uses B2A2,
/// and B2A0 only where there is no B2A2.
pub proof fn b2a_table_for_each_intent(m: Map<u32, TagData>)
    ensures
        intent_tag(m, four_cc(seq!['B', '2', 'A', '0']), RenderingIntent::Perceptual) == tag_under(m, four_cc(seq!['B', '2', 'A', '0'])),
        intent_tag(m, four_cc(seq!['B', '2', 'A', '0']), RenderingIntent::RelativeColorimetric) == (if m.contains_key(
            four_cc(seq!['B', '2', 'A', '1']),
        ) {
            Some(m[four_cc(seq!['B', '2', 'A', '1'])])
        } else {
            tag_under(m, four_cc(seq!['B', '2', 'A', '0']))
        }),
        intent_tag(m, four_cc(seq!['B', '2', 'A', '0']), RenderingIntent::AbsoluteColorimetric) == (if m.contains_key(
            four_cc(seq!['B', '2', 'A', '1']),
        ) {
            Some(m[four_cc(seq!['B', '2', 'A', '1'])])
        } else {
            tag_under(m, four_cc(seq!['B', '2', 'A', '0']))
        }),
        intent_tag(m, four_cc(seq!['B', '2', 'A', '0']), RenderingIntent::Saturation) == (if m.contains_key(four_cc(seq!['B', '2', 'A', '2'])) {
            Some(m[four_cc(seq!['B', '2', 'A', '2'])])
        } else {
            tag_under(m, four_cc(seq!['B', '2', 'A', '0']))
        }),
{
}

} // verus!
