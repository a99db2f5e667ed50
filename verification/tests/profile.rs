use oxcms_core::profile::{
    equivalence_verdict, profile_text_value, DataColorSpace, HeaderFields, ProfileReading,
    ProfileText, ProfileVersion,
};
use oxcms_core::types::{ColorSpace, ProfileClass, ProfileVersion as Version};
use oxcms_core::{ColorProfile, Error, RenderingIntent};

#[test]
fn profile_test_srgb_profile() {
    let profile = ColorProfile::new_srgb();
    assert_eq!(profile.color_space(), DataColorSpace::Rgb);
    assert!(profile.is_matrix_shaper());
}

#[test]
fn test_display_p3_profile() {
    let profile = ColorProfile::new_display_p3();
    assert_eq!(profile.color_space(), DataColorSpace::Rgb);
    assert!(profile.is_matrix_shaper());
}

#[test]
fn test_reject_small_profile() {
    let small_data = [0u8; 64];
    assert!(ColorProfile::from_bytes(&small_data).is_err());
}

#[test]
fn test_lab_profile() {
    let profile = ColorProfile::new_lab();
    assert_eq!(profile.color_space(), DataColorSpace::Lab);
}

#[test]
fn test_pro_photo_rgb_profile() {
    let profile = ColorProfile::new_pro_photo_rgb();
    assert_eq!(profile.color_space(), DataColorSpace::Rgb);
    assert!(profile.is_matrix_shaper());
}

#[test]
fn test_dci_p3_profile() {
    let profile = ColorProfile::new_dci_p3();
    assert_eq!(profile.color_space(), DataColorSpace::Rgb);
    assert!(profile.is_matrix_shaper());
}

#[test]
fn test_hdr_profiles() {
    let p3_pq = ColorProfile::new_display_p3_pq();
    assert_eq!(p3_pq.color_space(), DataColorSpace::Rgb);

    let bt2020_pq = ColorProfile::new_bt2020_pq();
    assert_eq!(bt2020_pq.color_space(), DataColorSpace::Rgb);

    let bt2020_hlg = ColorProfile::new_bt2020_hlg();
    assert_eq!(bt2020_hlg.color_space(), DataColorSpace::Rgb);
}

#[test]
fn test_aces_profiles() {
    let aces = ColorProfile::new_aces_linear();
    assert_eq!(aces.color_space(), DataColorSpace::Rgb);

    let aces_cg = ColorProfile::new_aces_cg();
    assert_eq!(aces_cg.color_space(), DataColorSpace::Rgb);
}

#[test]
fn built_in_profiles_read_their_header_values() {
    let srgb = ColorProfile::new_srgb();
    assert_eq!(srgb.pcs(), DataColorSpace::Xyz);
    assert_eq!(srgb.profile_class(), ProfileClass::Display);
    assert_eq!(srgb.rendering_intent(), RenderingIntent::Perceptual);
    assert_eq!(srgb.description(), Some("sRGB IEC61966-2.1".to_string()));
    assert!(srgb.copyright().is_some());
    let bt709 = ColorProfile::new_bt709();
    assert_eq!(bt709.description(), srgb.description());
    for p in [ColorProfile::new_adobe_rgb(), ColorProfile::new_bt2020()] {
        assert_eq!(p.color_space(), DataColorSpace::Rgb);
        assert!(p.is_matrix_shaper());
    }
    assert!(!ColorProfile::new_lab().is_matrix_shaper());
}

#[test]
fn built_in_profiles_carry_their_names_and_copyright() {
    let named = [
        (ColorProfile::new_srgb(), "sRGB IEC61966-2.1"),
        (ColorProfile::new_bt709(), "sRGB IEC61966-2.1"),
        (ColorProfile::new_display_p3(), "Display P3"),
        (ColorProfile::new_adobe_rgb(), "Adobe RGB 1998"),
        (ColorProfile::new_bt2020(), "Rec.2020"),
        (ColorProfile::new_dci_p3(), "DCI P3"),
        (ColorProfile::new_pro_photo_rgb(), "ProPhoto RGB"),
        (ColorProfile::new_display_p3_pq(), "Display P3 PQ"),
        (ColorProfile::new_bt2020_pq(), "Rec.2020 PQ"),
        (ColorProfile::new_bt2020_hlg(), "Rec.2020 HLG"),
        (ColorProfile::new_lab(), "Generic L*a*b* Profile"),
        (ColorProfile::new_aces_linear(), "ACES 2065-1"),
        (ColorProfile::new_aces_cg(), "ACEScg/AP1"),
    ];
    for (p, name) in named {
        assert_eq!(p.description(), Some(name.to_string()));
        assert_eq!(p.copyright(), Some("Public Domain".to_string()));
    }
}

#[test]
fn parsed_profile_keeps_its_texts() {
    let bytes = moxcms::ColorProfile::new_display_p3().encode().unwrap();
    let parsed = ColorProfile::from_bytes(&bytes).unwrap();
    assert_eq!(parsed.description(), Some("Display P3".to_string()));
    assert_eq!(parsed.copyright(), Some("Public Domain".to_string()));
}

#[test]
fn encoded_profile_parses_back() {
    let srgb = moxcms::ColorProfile::new_srgb();
    let bytes = srgb.encode().unwrap();
    let parsed = ColorProfile::from_bytes(&bytes).unwrap();
    assert_eq!(parsed.color_space(), DataColorSpace::Rgb);
    assert_eq!(parsed.pcs(), DataColorSpace::Xyz);
    assert!(parsed.is_matrix_shaper());
    assert!(matches!(
        parsed.version(),
        ProfileVersion::V4_0
            | ProfileVersion::V4_1
            | ProfileVersion::V4_2
            | ProfileVersion::V4_3
            | ProfileVersion::V4_4
    ));
}

#[test]
fn refused_bytes_give_a_parse_error_with_the_moxcms_message() {
    match ColorProfile::from_bytes(&[0u8; 64]) {
        Err(Error::ProfileParse(m)) => {
            assert!(!m.is_empty());
            let direct = moxcms::ColorProfile::new_from_slice(&[0u8; 64]).unwrap_err();
            assert_eq!(m, format!("{:?}", direct));
        }
        other => panic!("expected a parse error, got {:?}", other.map(|_| ())),
    }
}

#[test]
fn parse_outcome_is_passed_through() {
    let fields = HeaderFields { color_space: 1, pcs: 0, class: 2, intent: 3, version: 0x0210_0000 };
    let reading = ProfileReading {
        fields,
        matrix_shaper: true,
        description: Some(ProfileText::PlainString("read".into())),
        copyright: None,
    };
    let ok =
        ColorProfile::from_parse_outcome(Ok((moxcms::ColorProfile::new_lab(), reading))).unwrap();
    assert!(ok.is_matrix_shaper());
    assert_eq!(ok.description(), Some("read".to_string()));
    assert_eq!(ok.copyright(), None);
    assert_eq!(ok.color_space(), DataColorSpace::Lab);
    assert_eq!(ok.pcs(), DataColorSpace::Xyz);
    assert_eq!(ok.profile_class(), ProfileClass::Output);
    assert_eq!(ok.rendering_intent(), RenderingIntent::AbsoluteColorimetric);
    assert_eq!(ok.version(), ProfileVersion::V2_1);
    match ColorProfile::from_parse_outcome(Err("InvalidProfile".to_string())) {
        Err(Error::ProfileParse(m)) => assert_eq!(m, "InvalidProfile"),
        other => panic!("expected a parse error, got {:?}", other.map(|_| ())),
    }
}

#[test]
fn profile_texts_read_as_their_first_value() {
    assert_eq!(profile_text_value(&ProfileText::PlainString("a".into())), "a");
    assert_eq!(profile_text_value(&ProfileText::Description("b".into())), "b");
    assert_eq!(
        profile_text_value(&ProfileText::Localizable(vec!["x".into(), "y".into()])),
        "x"
    );
    assert_eq!(profile_text_value(&ProfileText::Localizable(vec![])), "");
}

#[test]
fn equivalence_needs_matching_spaces_matrix_shapers_and_colorants() {
    let srgb = ColorProfile::new_srgb();
    let p3 = ColorProfile::new_display_p3();
    let lab = ColorProfile::new_lab();
    assert!(equivalence_verdict(&srgb, &p3, true));
    assert!(!equivalence_verdict(&srgb, &p3, false));
    assert_eq!(
        equivalence_verdict(&p3, &srgb, true),
        equivalence_verdict(&srgb, &p3, true)
    );
    assert!(!equivalence_verdict(&srgb, &lab, true));
    assert!(!equivalence_verdict(&lab, &lab, true));
}

#[test]
fn cicp_profile_and_inner_access() {
    let cicp = moxcms::CicpProfile {
        color_primaries: moxcms::CicpColorPrimaries::Bt709,
        transfer_characteristics: moxcms::TransferCharacteristics::Srgb,
        matrix_coefficients: moxcms::MatrixCoefficients::Bt709,
        full_range: false,
    };
    let p = ColorProfile::from_cicp(cicp);
    assert_eq!(p.color_space(), DataColorSpace::Rgb);
    assert_eq!(p.inner().color_space, moxcms::DataColorSpace::Rgb);
    assert_eq!(p.description(), None);
    assert_eq!(p.copyright(), None);
    let wrapped = ColorProfile::from_moxcms(moxcms::ColorProfile::new_bt2020());
    assert_eq!(wrapped.inner().pcs, moxcms::DataColorSpace::Xyz);
    let copy = wrapped.clone();
    assert_eq!(copy.color_space(), wrapped.color_space());
}

#[test]
fn moxcms_spaces_and_versions_convert_to_the_public_types() {
    assert_eq!(ColorSpace::from(DataColorSpace::YCbr), ColorSpace::YCbCr);
    assert_eq!(ColorSpace::from(DataColorSpace::Cmyk), ColorSpace::Cmyk);
    assert_eq!(ColorSpace::from(DataColorSpace::Yxy), ColorSpace::Unknown);
    assert_eq!(ColorSpace::from(DataColorSpace::Color7), ColorSpace::Unknown);
    assert_eq!(Version::from(ProfileVersion::V2_1), Version::new(2, 1, 0));
    assert_eq!(Version::from(ProfileVersion::V4_4), Version::new(4, 4, 0));
    assert_eq!(Version::from(ProfileVersion::Unknown), Version::new(0, 0, 0));
    let srgb = ColorProfile::new_srgb();
    assert_eq!(ColorSpace::from(srgb.color_space()), ColorSpace::Rgb);
}

#[test]
fn parsed_profile_holds_its_header_values() {
    let srgb = moxcms::ColorProfile::new_srgb();
    let mut bytes = srgb.encode().unwrap();
    // A version 2.1 output profile with the saturation intent.
    bytes[8..12].copy_from_slice(&0x0210_0000u32.to_be_bytes());
    bytes[12..16].copy_from_slice(b"prtr");
    bytes[64..68].copy_from_slice(&2u32.to_be_bytes());
    let parsed = ColorProfile::from_bytes(&bytes).unwrap();
    assert_eq!(parsed.version(), ProfileVersion::V2_1);
    assert_eq!(parsed.profile_class(), ProfileClass::Output);
    assert_eq!(parsed.rendering_intent(), RenderingIntent::Saturation);
    assert_eq!(parsed.color_space(), DataColorSpace::Rgb);
    assert_eq!(parsed.pcs(), DataColorSpace::Xyz);
    // Version 4.4 is read as 4.3.
    bytes[8..12].copy_from_slice(&0x0440_0000u32.to_be_bytes());
    assert_eq!(ColorProfile::from_bytes(&bytes).unwrap().version(), ProfileVersion::V4_3);
}

#[test]
fn built_in_profiles_are_version_4_4_and_rgb_ones_matrix_shapers() {
    for p in [
        ColorProfile::new_srgb(),
        ColorProfile::new_display_p3(),
        ColorProfile::new_adobe_rgb(),
        ColorProfile::new_bt2020(),
        ColorProfile::new_bt709(),
        ColorProfile::new_dci_p3(),
        ColorProfile::new_pro_photo_rgb(),
        ColorProfile::new_display_p3_pq(),
        ColorProfile::new_bt2020_pq(),
        ColorProfile::new_bt2020_hlg(),
        ColorProfile::new_aces_linear(),
        ColorProfile::new_aces_cg(),
    ] {
        assert_eq!(p.version(), ProfileVersion::V4_4);
        assert!(p.is_matrix_shaper());
        assert_eq!(p.profile_class(), ProfileClass::Display);
    }
    assert_eq!(ColorProfile::new_lab().version(), ProfileVersion::V4_4);
    assert!(!ColorProfile::new_lab().is_matrix_shaper());
}
