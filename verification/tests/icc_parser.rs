use oxcms_core::icc::header::{ColorSpace, RenderingIntent, PROFILE_SIGNATURE};
use oxcms_core::icc::tags::TagData;
use oxcms_core::icc::{IccError, IccProfile, TagSignature};

/// Create a minimal valid ICC profile for testing
fn create_minimal_profile() -> Vec<u8> {
    let mut data = vec![0u8; 128 + 4]; // Header + tag count

    // Size
    let size = data.len() as u32;
    data[0..4].copy_from_slice(&size.to_be_bytes());

    // Version 4.3
    data[8] = 4;
    data[9] = 0x30;

    // Device class: Display
    data[12..16].copy_from_slice(b"mntr");

    // Color space: RGB
    data[16..20].copy_from_slice(b"RGB ");

    // PCS: XYZ
    data[20..24].copy_from_slice(b"XYZ ");

    // Signature: 'acsp'
    data[36..40].copy_from_slice(&PROFILE_SIGNATURE.to_be_bytes());

    // Tag count: 0
    data[128..132].copy_from_slice(&0u32.to_be_bytes());

    data
}

#[test]
fn test_parse_minimal_profile() {
    let data = create_minimal_profile();
    let profile = IccProfile::parse(&data).unwrap();

    assert_eq!(profile.header.version.major, 4);
    assert_eq!(profile.tag_count(), 0);
}

#[test]
fn test_profile_too_small() {
    let data = vec![0u8; 100];
    let result = IccProfile::parse(&data);
    assert!(result.is_err());
}

#[test]
fn test_profile_with_one_tag() {
    let mut data = create_minimal_profile();

    // Update size
    let new_size = (data.len() + 12 + 20) as u32; // +12 tag entry +20 tag data
    data[0..4].copy_from_slice(&new_size.to_be_bytes());

    // Tag count: 1
    data[128..132].copy_from_slice(&1u32.to_be_bytes());

    // Tag entry: cprt (copyright), offset 144, size 20
    data.extend_from_slice(b"cprt"); // signature
    data.extend_from_slice(&144u32.to_be_bytes()); // offset
    data.extend_from_slice(&20u32.to_be_bytes()); // size

    // Tag data at offset 144
    data.extend_from_slice(b"text"); // type signature
    data.extend_from_slice(&[0u8; 4]); // reserved
    data.extend_from_slice(b"Test\0"); // text + null
    data.extend_from_slice(&[0u8; 7]); // padding to 20 bytes

    let profile = IccProfile::parse(&data).unwrap();
    assert_eq!(profile.tag_count(), 1);

    let copyright = profile.copyright();
    assert_eq!(copyright, Some("Test".to_string()));
}

/// A profile whose tag table holds the given entries, each pointing at its own data,
/// laid out one after the other after the table.
fn profile_with_tags(tags: &[(&[u8; 4], Vec<u8>)]) -> Vec<u8> {
    let mut data = create_minimal_profile();
    let table_end = 132 + 12 * tags.len();
    let mut offset = table_end;
    let mut body = Vec::new();
    for (sig, bytes) in tags {
        data.extend_from_slice(*sig);
        data.extend_from_slice(&(offset as u32).to_be_bytes());
        data.extend_from_slice(&(bytes.len() as u32).to_be_bytes());
        body.extend_from_slice(bytes);
        offset += bytes.len();
    }
    data.extend_from_slice(&body);
    let total = data.len() as u32;
    data[0..4].copy_from_slice(&total.to_be_bytes());
    data[128..132].copy_from_slice(&(tags.len() as u32).to_be_bytes());
    data
}

fn xyz_tag(x: i32, y: i32, z: i32) -> Vec<u8> {
    let mut t = b"XYZ ".to_vec();
    t.extend_from_slice(&[0u8; 4]);
    t.extend_from_slice(&x.to_be_bytes());
    t.extend_from_slice(&y.to_be_bytes());
    t.extend_from_slice(&z.to_be_bytes());
    t
}

fn text_tag(s: &str) -> Vec<u8> {
    let mut t = b"text".to_vec();
    t.extend_from_slice(&[0u8; 4]);
    t.extend_from_slice(s.as_bytes());
    t.push(0);
    t
}

fn gamma_curve_tag(raw: u16) -> Vec<u8> {
    let mut t = b"curv".to_vec();
    t.extend_from_slice(&[0u8; 4]);
    t.extend_from_slice(&1u32.to_be_bytes());
    t.extend_from_slice(&raw.to_be_bytes());
    t
}

#[test]
fn later_table_entry_replaces_earlier_one() {
    let data = profile_with_tags(&[(b"desc", text_tag("first")), (b"desc", text_tag("second"))]);
    let profile = IccProfile::parse(&data).unwrap();
    assert_eq!(profile.tag_count(), 1);
    assert_eq!(profile.description(), Some("second".to_string()));
}

#[test]
fn matrix_shaper_profile_accessors() {
    let data = profile_with_tags(&[
        (b"rXYZ", xyz_tag(0x6FA2, 0x38F5, 0x0390)),
        (b"gXYZ", xyz_tag(0x6299, 0xB785, 0x18DA)),
        (b"bXYZ", xyz_tag(0x24A0, 0x0F84, 0xB6CF)),
        (b"rTRC", gamma_curve_tag(0x0233)),
        (b"gTRC", gamma_curve_tag(0x0233)),
        (b"bTRC", gamma_curve_tag(0x0233)),
        (b"wtpt", xyz_tag(0xF6D6, 0x10000, 0xD32D)),
    ]);
    let profile = IccProfile::parse(&data).unwrap();
    assert_eq!(profile.tag_count(), 7);
    assert!(profile.is_matrix_shaper());
    assert!(!profile.is_lut_based());
    assert!(!profile.is_cmyk());
    let red = profile.red_colorant().unwrap();
    assert_eq!((red.x.0, red.y.0, red.z.0), (0x6FA2, 0x38F5, 0x0390));
    let white = profile.media_white_point().unwrap();
    assert_eq!(white.y.0, 0x10000);
    assert!(profile.media_black_point().is_none());
    assert!(profile.red_trc().is_some());
    assert!(profile.gray_trc().is_none());
    assert_eq!(profile.input_channels(), 3);
    assert_eq!(profile.pcs_channels(), 3);
    assert_eq!(profile.raw_data(), &data[..]);
    let mut sigs: Vec<u32> = profile.tag_signatures().iter().map(|s| s.0).collect();
    sigs.sort();
    let mut expected: Vec<u32> = [b"rXYZ", b"gXYZ", b"bXYZ", b"rTRC", b"gTRC", b"bTRC", b"wtpt"]
        .iter()
        .map(|b| u32::from_be_bytes(**b))
        .collect();
    expected.sort();
    assert_eq!(sigs, expected);
    assert!(profile.get_tag(TagSignature::from_bytes(*b"rXYZ")).is_some());
    assert!(profile.get_tag(TagSignature::from_bytes(*b"cprt")).is_none());
}

#[test]
fn unparsable_tag_is_kept_as_unknown() {
    // An XYZ tag with too few bytes: kept as unknown with its type signature.
    let mut short_xyz = b"XYZ ".to_vec();
    short_xyz.extend_from_slice(&[0u8; 8]);
    let data = profile_with_tags(&[(b"wtpt", short_xyz.clone())]);
    let profile = IccProfile::parse(&data).unwrap();
    match profile.get_tag(TagSignature::from_bytes(*b"wtpt")).unwrap() {
        TagData::Unknown { type_sig, data } => {
            assert_eq!(*type_sig, u32::from_be_bytes(*b"XYZ "));
            assert_eq!(data, &short_xyz);
        }
        other => panic!("expected unknown tag, got {:?}", other),
    }
    assert!(profile.media_white_point().is_none());
}

#[test]
fn intent_lookup_falls_back_to_perceptual() {
    let data = profile_with_tags(&[(b"A2B0", text_tag("zero")), (b"A2B2", text_tag("two"))]);
    let profile = IccProfile::parse(&data).unwrap();
    assert!(profile.is_lut_based());
    let text_of = |t: Option<&TagData>| t.and_then(|t| t.as_text()).map(|t| t.text.clone());
    assert_eq!(text_of(profile.a2b_for_intent(RenderingIntent::Perceptual)), Some("zero".into()));
    assert_eq!(
        text_of(profile.a2b_for_intent(RenderingIntent::RelativeColorimetric)),
        Some("zero".into())
    );
    assert_eq!(text_of(profile.a2b_for_intent(RenderingIntent::Saturation)), Some("two".into()));
    assert!(profile.b2a_for_intent(RenderingIntent::Perceptual).is_none());
}

#[test]
fn tag_past_the_end_is_refused() {
    let mut data = create_minimal_profile();
    data[128..132].copy_from_slice(&1u32.to_be_bytes());
    data.extend_from_slice(b"desc");
    data.extend_from_slice(&140u32.to_be_bytes());
    data.extend_from_slice(&100u32.to_be_bytes());
    let total = data.len() as u32;
    data[0..4].copy_from_slice(&total.to_be_bytes());
    assert_eq!(
        IccProfile::parse(&data).unwrap_err(),
        IccError::TagOutOfBounds {
            tag: u32::from_be_bytes(*b"desc"),
            offset: 140,
            size: 100,
            profile_size: 144,
        }
    );
}

#[test]
fn tag_table_past_the_end_is_refused() {
    let mut data = create_minimal_profile();
    data[128..132].copy_from_slice(&2u32.to_be_bytes());
    assert_eq!(
        IccProfile::parse(&data).unwrap_err(),
        IccError::TooSmall { expected: 156, actual: 132 }
    );
}

#[test]
fn header_size_beyond_data_is_refused() {
    let mut data = create_minimal_profile();
    data[0..4].copy_from_slice(&500u32.to_be_bytes());
    assert_eq!(
        IccProfile::parse(&data).unwrap_err(),
        IccError::SizeMismatch { header_size: 500, actual_size: 132 }
    );
}

#[test]
fn header_without_tag_count_is_refused() {
    let mut data = create_minimal_profile();
    data.truncate(128);
    data[0..4].copy_from_slice(&128u32.to_be_bytes());
    assert_eq!(
        IccProfile::parse(&data).unwrap_err(),
        IccError::TooSmall { expected: 132, actual: 128 }
    );
}

#[test]
fn chromatic_adaptation_matrix_is_read_from_sf32() {
    let mut chad = b"sf32".to_vec();
    chad.extend_from_slice(&[0u8; 4]);
    for i in 0..9i32 {
        let v: i32 = if i % 4 == 0 { 0x10000 } else { -i };
        chad.extend_from_slice(&v.to_be_bytes());
    }
    let data = profile_with_tags(&[(b"chad", chad)]);
    let profile = IccProfile::parse(&data).unwrap();
    let m = profile.chromatic_adaptation_matrix().unwrap();
    assert_eq!(m[0][0].0, 0x10000);
    assert_eq!(m[0][1].0, -1);
    assert_eq!(m[1][1].0, 0x10000);
    assert_eq!(m[2][2].0, 0x10000);
    assert_eq!(m[2][1].0, -7);
}

#[test]
fn parse_checked_agrees_with_parse() {
    let data = create_minimal_profile();
    let checked = IccProfile::parse_checked(&data).unwrap().unwrap();
    assert_eq!(checked.tag_count(), 0);
    assert_eq!(checked.header.color_space, ColorSpace::Rgb);
}

#[test]
fn colorant_columns_need_all_three_colorants() {
    let data = profile_with_tags(&[
        (b"rXYZ", xyz_tag(1, 2, 3)),
        (b"gXYZ", xyz_tag(4, 5, 6)),
        (b"bXYZ", xyz_tag(7, 8, 9)),
    ]);
    let profile = IccProfile::parse(&data).unwrap();
    let (r, g, b) = profile.colorant_columns().unwrap();
    assert_eq!((r.x.0, g.y.0, b.z.0), (1, 5, 9));

    let data = profile_with_tags(&[(b"rXYZ", xyz_tag(1, 2, 3)), (b"bXYZ", xyz_tag(7, 8, 9))]);
    let profile = IccProfile::parse(&data).unwrap();
    assert_eq!(
        profile.colorant_columns().unwrap_err(),
        IccError::MissingTag(u32::from_be_bytes(*b"gXYZ"))
    );
}
