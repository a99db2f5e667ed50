use oxcms_core::icc::tags::lut::{CurveSegment, LutAToBData, LutBToAData, LutClut};
use oxcms_core::icc::tags::text::decode_utf16be;
use oxcms_core::icc::tags::{CurveData, Lut16Data, Lut8Data, ParametricCurveData, TagData, TextData, XyzTagData};
use oxcms_core::icc::IccError;
use oxcms_core::math::gamma::ParametricCurveType;

#[test]
fn test_curve_gamma() {
    // Gamma 2.2 as u8Fixed8 = 2.2 * 256 = 563.2 ≈ 563 = 0x0233
    let data: [u8; 6] = [
        0, 0, 0, 1, // count = 1
        0x02, 0x33, // gamma = 563/256 ≈ 2.199
    ];
    let curve = CurveData::parse(&data).unwrap();

    if let CurveData::Gamma(g) = curve {
        assert!((g.0 as f64 / 256.0 - 2.199).abs() < 0.01);
    } else {
        panic!("Expected Gamma curve");
    }
}

#[test]
fn curve_count_zero_is_identity_and_tables_keep_entries() {
    let curve = CurveData::parse(&[0, 0, 0, 0]).unwrap();
    assert!(matches!(curve, CurveData::Identity));

    let data: [u8; 10] = [0, 0, 0, 3, 0x00, 0x00, 0x80, 0x00, 0xFF, 0xFF];
    match CurveData::parse(&data).unwrap() {
        CurveData::Table(t) => assert_eq!(t, vec![0, 0x8000, 0xFFFF]),
        other => panic!("expected table, got {:?}", other),
    }
    // Fewer entries than the count announces
    assert!(CurveData::parse(&[0, 0, 0, 3, 0, 0]).is_err());
    assert!(CurveData::parse(&[0, 0]).is_err());
}

#[test]
fn parametric_curve_reads_its_parameters() {
    let mut data = vec![0, 3, 0, 0];
    for v in [0x0002_6666i32, 0xF2A7, 0x0D59, 0x13D0, 0x0A5C] {
        data.extend_from_slice(&v.to_be_bytes());
    }
    let p = ParametricCurveData::parse(&data).unwrap();
    assert_eq!(p.curve_type, ParametricCurveType::IEC61966_2_1);
    assert_eq!(p.g.0, 0x0002_6666);
    assert_eq!(p.a.0, 0xF2A7);
    assert_eq!(p.d.0, 0x0A5C);
    assert_eq!(p.e.0, 0);
    assert_eq!(p.f.0, 0);
    // Parameters missing from the tag read as zero
    let short = ParametricCurveData::parse(&data[..20]).unwrap();
    assert_eq!(short.c.0, 0x13D0);
    assert_eq!(short.d.0, 0);
    // Function type 5 does not exist
    match ParametricCurveData::parse(&[0, 5, 0, 0, 0, 1, 0, 0]) {
        Err(IccError::CorruptedData(m)) => assert_eq!(m, "Unknown parametric curve type: 5"),
        other => panic!("expected corrupted data, got {:?}", other),
    }
}

#[test]
fn test_parse_unknown_type() {
    // Unknown type signature
    let data = [
        b'u', b'n', b'k', b'n', // type sig "unkn"
        0, 0, 0, 0, // reserved
        1, 2, 3, 4, // payload
    ];

    let tag = TagData::parse(&data, 0).unwrap();
    match tag {
        TagData::Unknown { type_sig, .. } => {
            assert_eq!(type_sig, u32::from_be_bytes(*b"unkn"));
        }
        _ => panic!("Expected Unknown tag type"),
    }
}

#[test]
fn tag_shorter_than_its_header_is_corrupted() {
    match TagData::parse(&[1, 2, 3], 0) {
        Err(IccError::CorruptedData(m)) => assert_eq!(m, "Tag data too small for header"),
        other => panic!("expected corrupted data, got {:?}", other),
    }
}

#[test]
fn tag_accessors_pick_their_variant() {
    let mut xyz = b"XYZ ".to_vec();
    xyz.extend_from_slice(&[0u8; 4]);
    xyz.extend_from_slice(&[0, 1, 0, 0, 0, 1, 0, 0, 0, 1, 0, 0]);
    let tag = TagData::parse(&xyz, 0).unwrap();
    assert!(tag.as_xyz().is_some());
    assert!(tag.as_curve().is_none());
    assert!(tag.as_text().is_none());
    assert!(!tag.is_lut());

    let mut mluc = b"mluc".to_vec();
    mluc.extend_from_slice(&[0u8; 4]);
    mluc.extend_from_slice(&[0, 0, 0, 1, 0, 0, 0, 12, b'e', b'n', b'U', b'S', 0, 0, 0, 4, 0, 0, 0, 20]);
    mluc.extend_from_slice(&[0x00, b'O', 0x00, b'K']);
    let tag = TagData::parse(&mluc, 0).unwrap();
    assert!(matches!(tag, TagData::MultiLocalizedUnicode(_)));
    assert_eq!(tag.as_text().unwrap().text, "OK");
}

#[test]
fn test_lut8_basic_parse() {
    // Minimal Lut8 header with 3x3 identity matrix
    let mut data = vec![0u8; 48];
    data[0] = 3; // input channels
    data[1] = 3; // output channels
    data[2] = 2; // grid points

    // Identity matrix (s15Fixed16: 1.0 = 0x00010000)
    let one = 0x00010000u32.to_be_bytes();
    let zero = [0u8; 4];

    // Row 0
    data[4..8].copy_from_slice(&one);
    data[8..12].copy_from_slice(&zero);
    data[12..16].copy_from_slice(&zero);
    // Row 1
    data[16..20].copy_from_slice(&zero);
    data[20..24].copy_from_slice(&one);
    data[24..28].copy_from_slice(&zero);
    // Row 2
    data[28..32].copy_from_slice(&zero);
    data[32..36].copy_from_slice(&zero);
    data[36..40].copy_from_slice(&one);

    // Input tables (3 channels * 256 bytes = 768)
    data.extend(vec![0u8; 768]);
    for i in 0..3 {
        for j in 0..256 {
            data[40 + i * 256 + j] = j as u8;
        }
    }

    // CLUT (2^3 * 3 = 24 bytes)
    data.extend(vec![128u8; 24]);

    // Output tables (3 channels * 256 bytes)
    for _ in 0..3 {
        for j in 0..256 {
            data.push(j as u8);
        }
    }

    let lut = Lut8Data::parse(&data).unwrap();
    assert_eq!(lut.input_channels, 3);
    assert_eq!(lut.output_channels, 3);
    assert_eq!(lut.grid_points, 2);
    assert!(lut.matrix_is_identity());
}

#[test]
fn lut8_tables_and_errors() {
    let mut data = vec![0u8; 40];
    data[0] = 1;
    data[1] = 1;
    data[2] = 2;
    data[4..8].copy_from_slice(&0x20000u32.to_be_bytes());
    data.extend((0..=255u8).collect::<Vec<u8>>());
    data.extend([7u8, 9u8]);
    data.extend((0..=255u8).rev().collect::<Vec<u8>>());
    let lut = Lut8Data::parse(&data).unwrap();
    assert!(!lut.matrix_is_identity());
    assert_eq!(lut.input_curves.len(), 1);
    assert_eq!(lut.input_curves[0][200], 200);
    assert_eq!(lut.clut, vec![7, 9]);
    assert_eq!(lut.output_curves[0][0], 255);
    // One byte short of the output table
    assert!(Lut8Data::parse(&data[..data.len() - 1]).is_err());
    // Too short for the header
    assert!(Lut8Data::parse(&[1, 1, 2]).is_err());
}

#[test]
fn lut16_reads_its_tables() {
    let mut data = vec![0u8; 44];
    data[0] = 1; // input channels
    data[1] = 1; // output channels
    data[2] = 2; // grid points
    data[4..8].copy_from_slice(&0x10000u32.to_be_bytes());
    data[20..24].copy_from_slice(&0x10000u32.to_be_bytes());
    data[36..40].copy_from_slice(&0x10000u32.to_be_bytes());
    data[40..42].copy_from_slice(&2u16.to_be_bytes()); // input entries
    data[42..44].copy_from_slice(&2u16.to_be_bytes()); // output entries
    for v in [0u16, 0xFFFF, 0x1000, 0x2000, 0xFFFF, 0] {
        data.extend_from_slice(&v.to_be_bytes());
    }
    let lut = Lut16Data::parse(&data).unwrap();
    assert_eq!(lut.input_entries, 2);
    assert_eq!(lut.output_entries, 2);
    assert_eq!(lut.input_curves, vec![vec![0, 0xFFFF]]);
    assert_eq!(lut.clut, vec![0x1000, 0x2000]);
    assert_eq!(lut.output_curves, vec![vec![0xFFFF, 0]]);
    assert!(Lut16Data::parse(&data[..data.len() - 2]).is_err());
}

#[test]
fn lut_a_to_b_with_b_curves_only() {
    // mAB with one input and one output channel and only B curves (an identity curv).
    let mut data = vec![0u8; 32];
    data[0] = 1;
    data[1] = 1;
    data[4..8].copy_from_slice(&32u32.to_be_bytes()); // offset of the B curves
    data.extend_from_slice(b"curv");
    data.extend_from_slice(&[0u8; 4]);
    data.extend_from_slice(&0u32.to_be_bytes());
    let lut = LutAToBData::parse(&data).unwrap();
    assert_eq!(lut.input_channels, 1);
    assert_eq!(lut.output_channels, 1);
    let b = lut.b_curves.as_ref().unwrap();
    assert_eq!(b.len(), 1);
    assert!(matches!(b[0], CurveSegment::Identity));
    assert!(lut.matrix.is_none());
    assert!(lut.m_curves.is_none());
    assert!(lut.clut.is_none());
    assert!(lut.a_curves.is_none());
    // The B curves point past the data
    data[4..8].copy_from_slice(&40u32.to_be_bytes());
    assert!(LutAToBData::parse(&data).is_err());
}

#[test]
fn clut_reads_grid_and_precision() {
    let mut data = vec![0u8; 20];
    data[0] = 2; // grid points, channel 0
    data[16] = 1; // 8-bit precision
    data.extend([1u8, 2, 3, 4]);
    let clut = LutClut::parse(&data, 1, 2).unwrap();
    assert_eq!(clut.grid_points, vec![2]);
    assert_eq!(clut.precision, 1);
    assert_eq!(clut.data, vec![1, 2, 3, 4]);
    // Not enough entries
    assert!(LutClut::parse(&data[..22], 1, 2).is_err());
}

#[test]
fn test_parse_text() {
    let data = b"Hello, World!\0";
    let text = TextData::parse_text(data).unwrap();
    assert_eq!(text.text, "Hello, World!");
}

#[test]
fn test_parse_desc() {
    // Count = 6 (including null)
    let mut data = vec![0, 0, 0, 6];
    data.extend_from_slice(b"sRGB\0\0"); // ASCII + null + padding

    let text = TextData::parse_desc(&data).unwrap();
    assert_eq!(text.text, "sRGB");
}

#[test]
fn desc_shorter_than_its_count_is_refused() {
    assert!(TextData::parse_desc(&[0, 0]).is_err());
    assert!(TextData::parse_desc(&[0, 0, 0, 9, b'a', b'b']).is_err());
}

#[test]
fn test_parse_mluc() {
    // 1 record, 12 bytes each
    let mut data = vec![
        0, 0, 0, 1, // record count = 1
        0, 0, 0, 12, // record size = 12
    ];

    // Record: en-US
    data.extend_from_slice(&[
        b'e', b'n', // language
        b'U', b'S', // country
        0, 0, 0, 10, // string length = 10 bytes (5 UTF-16 chars)
        0, 0, 0, 20, // string offset = 20 (after this record)
    ]);

    // UTF-16BE string "Test" (with null)
    data.extend_from_slice(&[0x00, b'T', 0x00, b'e', 0x00, b's', 0x00, b't', 0x00, 0x00]);

    let text = TextData::parse_mluc(&data).unwrap();
    assert_eq!(text.text, "Test");
    assert!(!text.localized.is_empty());
}

#[test]
fn mluc_primary_text_is_the_first_and_locales_are_found() {
    let mut data = vec![0, 0, 0, 2, 0, 0, 0, 12];
    data.extend_from_slice(&[b'd', b'e', b'D', b'E', 0, 0, 0, 4, 0, 0, 0, 32]);
    data.extend_from_slice(&[b'e', b'n', b'U', b'S', 0, 0, 0, 4, 0, 0, 0, 36]);
    data.extend_from_slice(&[0x00, b'J', 0x00, b'a']);
    data.extend_from_slice(&[0x00, b'O', 0x00, b'K']);
    let text = TextData::parse_mluc(&data).unwrap();
    assert_eq!(text.text, "Ja");
    assert_eq!(text.localized[0].0, "de-DE");
    assert_eq!(text.localized[1], ("en-US".to_string(), "OK".to_string()));
    assert_eq!(text.get_locale("de"), Some("Ja"));
    assert_eq!(text.get_locale("en"), Some("OK"));
    assert_eq!(text.get_locale("fr"), None);
    assert!(TextData::parse_mluc(&[0, 0, 0]).is_err());
}

#[test]
fn text_new_holds_the_text() {
    let t = TextData::new("plain".to_string());
    assert_eq!(t.text, "plain");
    assert!(t.localized.is_empty());
}

#[test]
fn test_decode_utf16be() {
    // "Hello" in UTF-16BE
    let data = [0x00, 0x48, 0x00, 0x65, 0x00, 0x6C, 0x00, 0x6C, 0x00, 0x6F];
    let result = decode_utf16be(&data).unwrap();
    assert_eq!(result, "Hello");
}

#[test]
fn utf16_decoding_stops_at_nul_and_handles_pairs() {
    assert_eq!(decode_utf16be(&[0x00, b'A', 0x00, 0x00, 0x00, b'B']).unwrap(), "A");
    // U+1F600 as a surrogate pair
    assert_eq!(decode_utf16be(&[0xD8, 0x3D, 0xDE, 0x00]).unwrap(), "\u{1F600}");
    // A lone high surrogate
    assert!(decode_utf16be(&[0xD8, 0x3D]).is_none());
}

#[test]
fn test_parse_xyz_tag() {
    // D50 white point
    let data: [u8; 12] = [
        0x00, 0x00, 0xF6, 0xD6, // X = 0.9642 (approximately)
        0x00, 0x01, 0x00, 0x00, // Y = 1.0
        0x00, 0x00, 0xD3, 0x2D, // Z = 0.8249 (approximately)
    ];

    let tag = XyzTagData::parse(&data).unwrap();
    assert_eq!(tag.values.len(), 1);

    let xyz = tag.first().unwrap();
    assert!((xyz.y.0 as f64 / 65536.0 - 1.0).abs() < 0.001);
}

#[test]
fn test_parse_multiple_xyz() {
    // Two XYZ values
    let data: [u8; 24] = [
        // First XYZ (1.0, 0.0, 0.0)
        0x00, 0x01, 0x00, 0x00, // X = 1.0
        0x00, 0x00, 0x00, 0x00, // Y = 0.0
        0x00, 0x00, 0x00, 0x00, // Z = 0.0
        // Second XYZ (0.0, 1.0, 0.0)
        0x00, 0x00, 0x00, 0x00, // X = 0.0
        0x00, 0x01, 0x00, 0x00, // Y = 1.0
        0x00, 0x00, 0x00, 0x00, // Z = 0.0
    ];

    let tag = XyzTagData::parse(&data).unwrap();
    assert_eq!(tag.values.len(), 2);
}

#[test]
fn test_parse_xyz_too_small() {
    let data: [u8; 4] = [0, 0, 0, 0];
    assert!(XyzTagData::parse(&data).is_err());
}

#[test]
fn xyz_ignores_trailing_partial_value() {
    let mut data = vec![0u8; 12];
    data[3] = 5;
    data.extend_from_slice(&[9u8; 11]);
    let tag = XyzTagData::parse(&data).unwrap();
    assert_eq!(tag.values.len(), 1);
    assert_eq!(tag.first().unwrap().x.0, 5);
}

#[test]
fn lut_element_offset_past_the_tag_is_corrupted_data() {
    // 32-byte header, no B curves, matrix offset past the end of the tag
    let mut data = vec![0u8; 32];
    data[8..12].copy_from_slice(&100u32.to_be_bytes());
    match LutAToBData::parse(&data) {
        Err(IccError::CorruptedData(m)) => assert_eq!(m, "lutAToB element offset out of range"),
        other => panic!("expected corrupted data, got {:?}", other),
    }
    match LutBToAData::parse(&data) {
        Err(IccError::CorruptedData(m)) => assert_eq!(m, "lutBToA element offset out of range"),
        other => panic!("expected corrupted data, got {:?}", other),
    }
    // The same through the tag parser
    let mut tag = b"mAB ".to_vec();
    tag.extend_from_slice(&[0u8; 4]);
    tag.extend_from_slice(&data);
    assert!(matches!(TagData::parse(&tag, 0), Err(IccError::CorruptedData(_))));
}

#[test]
fn text_tag_reads_as_its_body_whatever_the_signature() {
    let mut data = b"text".to_vec();
    data.extend_from_slice(&[0u8; 4]);
    data.extend_from_slice(b"Hi there\0");
    let body = TextData::parse_text(&data[8..]).unwrap();
    for sig in [0u32, u32::from_be_bytes(*b"desc"), u32::from_be_bytes(*b"cprt")] {
        match TagData::parse(&data, sig).unwrap() {
            TagData::Text(t) => assert_eq!(t.text, body.text),
            other => panic!("expected a text tag, got {:?}", other),
        }
    }
    for sig in [0u32, 7] {
        assert!(matches!(TagData::parse(&data[..5], sig), Err(IccError::CorruptedData(_))));
    }
}
