use oxcms_core::color::white_point::from_name;
use oxcms_core::color::StandardIlluminant;
use oxcms_core::icc::header::RenderingIntent as HeaderIntent;
use oxcms_core::icc::types::{
    DateTimeNumber, S15Fixed16, TagSignature, TypeSignature, U16Fixed16, U8Fixed8, XyzNumber,
};
use oxcms_core::math::chromatic_adaptation::ChromaticAdaptationMethod;
use oxcms_core::math::gamma::ParametricCurveType;
use oxcms_core::pipeline::{RenderIntent, TransformFlags};
use oxcms_core::simd::{active_features, CpuFeatures, TargetArch};
use oxcms_core::transform::{check_sample_depth, SampleDepth};
use oxcms_core::types::{ColorSpace, ProfileVersion};
use oxcms_core::{Error, Layout, RenderingIntent, TransformOptions};

#[test]
fn test_layout_channels() {
    assert_eq!(Layout::Rgb.channels(), 3);
    assert_eq!(Layout::Rgba.channels(), 4);
    assert_eq!(Layout::Gray.channels(), 1);
    assert_eq!(Layout::GrayAlpha.channels(), 2);
}

#[test]
fn alpha_layouts_are_the_even_ones() {
    for l in [Layout::Rgb, Layout::Rgba, Layout::Gray, Layout::GrayAlpha] {
        assert_eq!(l.has_alpha(), l.channels() % 2 == 0);
    }
    assert!(Layout::Rgba.has_alpha());
    assert!(!Layout::Gray.has_alpha());
}

#[test]
fn transform_options_default_is_perceptual_with_everything_off() {
    let o = TransformOptions::default();
    assert_eq!(o.intent, RenderingIntent::Perceptual);
    assert!(!o.black_point_compensation);
    assert!(!o.allow_use_cicp_transfer);
    assert!(!o.prefer_fixed_point);
    assert_eq!(RenderingIntent::default(), RenderingIntent::Perceptual);
}

#[test]
fn sample_depth_must_match_the_transform() {
    assert!(check_sample_depth(SampleDepth::U8, SampleDepth::U8).is_ok());
    match check_sample_depth(SampleDepth::U8, SampleDepth::U16) {
        Err(Error::Transform(m)) => assert_eq!(m, "Wrong bit depth for transform"),
        other => panic!("expected a transform error, got {:?}", other),
    }
    assert!(check_sample_depth(SampleDepth::F32, SampleDepth::U8).is_err());
}

#[test]
fn test_param_count() {
    assert_eq!(ParametricCurveType::Gamma.param_count(), 1);
    assert_eq!(ParametricCurveType::CIE122.param_count(), 3);
    assert_eq!(ParametricCurveType::IEC61966_3.param_count(), 4);
    assert_eq!(ParametricCurveType::IEC61966_2_1.param_count(), 5);
    assert_eq!(ParametricCurveType::Full.param_count(), 7);
}

#[test]
fn parametric_types_are_numbered_zero_to_four() {
    assert_eq!(ParametricCurveType::from_icc(0), Some(ParametricCurveType::Gamma));
    assert_eq!(ParametricCurveType::from_icc(4), Some(ParametricCurveType::Full));
    assert_eq!(ParametricCurveType::from_icc(5), None);
}

#[test]
fn test_render_intent_roundtrip() {
    for i in 0..4 {
        let intent = RenderIntent::from_icc(i);
        assert_eq!(intent.to_icc(), i);
    }
}

#[test]
fn render_intent_out_of_range_is_perceptual() {
    assert_eq!(RenderIntent::from_icc(9), RenderIntent::Perceptual);
    assert_eq!(RenderIntent::default(), RenderIntent::Perceptual);
}

#[test]
fn transform_flags_builders() {
    let f = TransformFlags::new();
    assert!(f.clamp_output);
    assert!(!f.black_point_compensation);
    let f = f.with_bpc().with_soft_proof();
    assert!(f.black_point_compensation);
    assert!(f.soft_proof);
    assert!(f.clamp_output);
    assert!(!f.gamut_check);
    let d = TransformFlags::default();
    assert!(!d.clamp_output);
}

#[test]
fn test_pipeline_exists() {
    // Placeholder test
    assert!(true);
}

#[test]
fn test_active_features() {
    for arch in [TargetArch::X86_64, TargetArch::Aarch64, TargetArch::Other] {
        for avx2 in [false, true] {
            for sse41 in [false, true] {
                let features = active_features(CpuFeatures { arch, avx2, sse41 });
                println!("Active SIMD features: {}", features);
                assert!(!features.is_empty());
            }
        }
    }
}

#[test]
fn active_features_name_the_best_set() {
    let x86 = |avx2, sse41| CpuFeatures { arch: TargetArch::X86_64, avx2, sse41 };
    assert_eq!(active_features(x86(true, true)), "AVX2");
    assert_eq!(active_features(x86(false, true)), "SSE4.1");
    assert_eq!(active_features(x86(false, false)), "scalar");
    let arm = CpuFeatures { arch: TargetArch::Aarch64, avx2: false, sse41: false };
    assert_eq!(active_features(arm), "NEON");
}

#[test]
fn types_test_color_space_channels() {
    assert_eq!(ColorSpace::Rgb.channels(), 3);
    assert_eq!(ColorSpace::Cmyk.channels(), 4);
    assert_eq!(ColorSpace::Gray.channels(), 1);
    assert_eq!(ColorSpace::Lab.channels(), 3);
}

#[test]
fn color_space_kinds() {
    assert!(ColorSpace::Rgb.is_rgb());
    assert!(ColorSpace::Cmyk.is_cmyk());
    assert!(ColorSpace::Gray.is_gray());
    assert!(!ColorSpace::Cmy.is_cmyk());
    assert_eq!(ColorSpace::Cmy.channels(), 3);
    assert_eq!(ColorSpace::MultiChannel.channels(), 0);
}

#[test]
fn test_profile_version_display() {
    let v = ProfileVersion::new(4, 3, 0);
    assert_eq!(v.to_string(), "4.3.0");
}

#[test]
fn profile_version_constants() {
    assert_eq!(ProfileVersion::v2_4().to_string(), "2.4.0");
    assert!(ProfileVersion::v4_4().is_v4());
    assert!(ProfileVersion::v2_4().is_v2());
    assert_eq!(ProfileVersion::new(10, 12, 255).to_string(), "10.12.255");
}

#[test]
fn test_tag_signature() {
    let desc = TagSignature::desc();
    assert_eq!(desc.to_string(), "desc");

    let r_xyz = TagSignature::red_colorant();
    assert_eq!(r_xyz.to_string(), "rXYZ");
}

#[test]
fn signatures_keep_their_bytes() {
    assert_eq!(TagSignature::from_bytes(*b"cprt"), TagSignature::copyright());
    assert_eq!(TagSignature::from_bytes(*b"A2B0").0, 0x4132_4230);
    assert_eq!(TagSignature::from_bytes(*b"wtpt").to_string(), "wtpt");
    assert_eq!(TypeSignature::from_bytes(*b"XYZ "), TypeSignature::xyz());
    assert_eq!(TypeSignature::chad(), TypeSignature::sf32());
    // Bytes that are not UTF-8 are replaced
    assert_eq!(TagSignature(0xFF41_4243).to_string(), "\u{FFFD}ABC");
}

#[test]
fn test_xyz_number() {
    // D50 white point in ICC encoding
    let bytes: [u8; 12] = [
        0x00, 0x00, 0xF6, 0xD6, // X = 0.9642
        0x00, 0x01, 0x00, 0x00, // Y = 1.0
        0x00, 0x00, 0xD3, 0x2D, // Z = 0.8249
    ];
    let xyz = XyzNumber::from_bytes(&bytes).unwrap();

    assert!((xyz.x.0 as f64 / 65536.0 - 0.9642).abs() < 0.001);
    assert!((xyz.y.0 as f64 / 65536.0 - 1.0).abs() < 0.001);
    assert!((xyz.z.0 as f64 / 65536.0 - 0.8249).abs() < 0.001);
}

#[test]
fn fixed_point_numbers_read_big_endian() {
    assert_eq!(S15Fixed16::from_be_bytes([0xFF, 0xFE, 0x80, 0x00]).0, -0x18000);
    assert_eq!(S15Fixed16::from_raw(65536).0, 65536);
    assert_eq!(U16Fixed16::from_be_bytes([0x00, 0x01, 0x80, 0x00]).0, 0x18000);
    assert_eq!(U16Fixed16::from_raw(7).0, 7);
    assert_eq!(U8Fixed8::from_be_bytes([0x02, 0x33]).0, 0x0233);
    assert!(XyzNumber::from_bytes(&[0u8; 11]).is_none());
}

#[test]
fn date_time_reads_six_fields() {
    let bytes = [0x07, 0xE8, 0, 2, 0, 29, 0, 23, 0, 59, 0, 58];
    let d = DateTimeNumber::from_bytes(&bytes).unwrap();
    assert_eq!((d.year, d.month, d.day), (2024, 2, 29));
    assert_eq!((d.hour, d.minute, d.second), (23, 59, 58));
    assert!(DateTimeNumber::from_bytes(&bytes[..11]).is_none());
}

#[test]
fn chromatic_adaptation_defaults_to_bradford() {
    assert_eq!(ChromaticAdaptationMethod::default(), ChromaticAdaptationMethod::Bradford);
}

#[test]
fn test_from_name() {
    assert!(from_name("D50").is_some());
    assert!(from_name("d65").is_some());
    assert!(from_name("DCI-P3").is_some());
    assert!(from_name("unknown").is_none());
}

#[test]
fn illuminant_names_ignore_case_and_read_back() {
    assert_eq!(from_name("d65"), Some(StandardIlluminant::D65));
    assert_eq!(from_name("dci"), Some(StandardIlluminant::DciP3));
    assert_eq!(from_name("f11"), Some(StandardIlluminant::F11));
    assert_eq!(from_name("D6"), None);
    for i in [
        StandardIlluminant::D50,
        StandardIlluminant::D55,
        StandardIlluminant::D60,
        StandardIlluminant::D65,
        StandardIlluminant::D75,
        StandardIlluminant::DciP3,
        StandardIlluminant::A,
        StandardIlluminant::E,
        StandardIlluminant::F2,
        StandardIlluminant::F7,
        StandardIlluminant::F11,
    ] {
        assert_eq!(from_name(i.name()), Some(i));
    }
}

#[test]
fn render_intents_name_the_same_header_intents() {
    for i in 0..4u32 {
        let intent = RenderIntent::from_icc(i);
        assert_eq!(intent.icc_intent(), HeaderIntent::from_u32(i).unwrap());
    }
}
