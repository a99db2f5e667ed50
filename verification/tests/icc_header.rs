use oxcms_core::icc::header::{
    ColorSpace, IccHeader, ProfileClass, ProfileVersion, RenderingIntent, PROFILE_SIGNATURE,
};
use oxcms_core::icc::IccError;

#[test]
fn header_test_color_space_channels() {
    assert_eq!(ColorSpace::Gray.channels(), 1);
    assert_eq!(ColorSpace::Rgb.channels(), 3);
    assert_eq!(ColorSpace::Cmyk.channels(), 4);
}

#[test]
fn test_profile_class_roundtrip() {
    for class in [
        ProfileClass::Input,
        ProfileClass::Display,
        ProfileClass::Output,
        ProfileClass::DeviceLink,
    ] {
        let val = class.to_u32();
        let back = ProfileClass::from_u32(val).unwrap();
        assert_eq!(class, back);
    }
}

#[test]
fn test_rendering_intent() {
    for i in 0..4 {
        let intent = RenderingIntent::from_u32(i).unwrap();
        assert_eq!(intent.to_u32(), i);
    }
    assert!(RenderingIntent::from_u32(4).is_err());
}

#[test]
fn test_profile_version() {
    let v2 = ProfileVersion {
        major: 2,
        minor: 4,
        patch: 0,
    };
    assert!(v2.is_v2());
    assert!(!v2.is_v4());
    assert!(v2.at_least(2, 0));
    assert!(v2.at_least(2, 4));
    assert!(!v2.at_least(2, 5));

    let v4 = ProfileVersion {
        major: 4,
        minor: 3,
        patch: 0,
    };
    assert!(v4.is_v4());
    assert!(v4.at_least(2, 0));
    assert!(v4.at_least(4, 3));
}

#[test]
fn every_profile_class_reads_back_from_its_signature() {
    for class in [
        ProfileClass::Input,
        ProfileClass::Display,
        ProfileClass::Output,
        ProfileClass::DeviceLink,
        ProfileClass::ColorSpace,
        ProfileClass::Abstract,
        ProfileClass::NamedColor,
    ] {
        assert_eq!(ProfileClass::from_u32(class.to_u32()).unwrap(), class);
    }
    assert_eq!(ProfileClass::Display.to_u32(), u32::from_be_bytes(*b"mntr"));
    assert_eq!(
        ProfileClass::from_u32(0x1234_5678),
        Err(IccError::InvalidProfileClass(0x1234_5678))
    );
}

#[test]
fn every_color_space_reads_back_from_its_signature() {
    let all = [
        ColorSpace::Xyz,
        ColorSpace::Lab,
        ColorSpace::Luv,
        ColorSpace::YCbCr,
        ColorSpace::Yxy,
        ColorSpace::Rgb,
        ColorSpace::Gray,
        ColorSpace::Hsv,
        ColorSpace::Hls,
        ColorSpace::Cmyk,
        ColorSpace::Cmy,
        ColorSpace::Color2,
        ColorSpace::Color3,
        ColorSpace::Color4,
        ColorSpace::Color5,
        ColorSpace::Color6,
        ColorSpace::Color7,
        ColorSpace::Color8,
        ColorSpace::Color9,
        ColorSpace::Color10,
        ColorSpace::Color11,
        ColorSpace::Color12,
        ColorSpace::Color13,
        ColorSpace::Color14,
        ColorSpace::Color15,
    ];
    for cs in all {
        assert_eq!(ColorSpace::from_u32(cs.to_u32()).unwrap(), cs);
    }
    assert_eq!(ColorSpace::Rgb.to_u32(), u32::from_be_bytes(*b"RGB "));
    assert_eq!(ColorSpace::Color15.channels(), 15);
    assert_eq!(ColorSpace::Lab.channels(), 3);
    assert_eq!(
        ColorSpace::from_u32(0),
        Err(IccError::InvalidColorSpace(0))
    );
}

#[test]
fn rendering_intent_above_three_is_refused_with_its_value() {
    assert_eq!(
        RenderingIntent::from_u32(7),
        Err(IccError::InvalidRenderingIntent(7))
    );
    assert_eq!(RenderingIntent::AbsoluteColorimetric.to_u32(), 3);
}

/// A 132-byte v4.3 RGB display profile with no tags.
fn minimal_header_bytes() -> Vec<u8> {
    let mut data = vec![0u8; 132];
    data[0..4].copy_from_slice(&132u32.to_be_bytes());
    data[8] = 4;
    data[9] = 0x30;
    data[12..16].copy_from_slice(b"mntr");
    data[16..20].copy_from_slice(b"RGB ");
    data[20..24].copy_from_slice(b"XYZ ");
    data[36..40].copy_from_slice(&PROFILE_SIGNATURE.to_be_bytes());
    data
}

#[test]
fn header_parse_reads_the_fields() {
    let data = minimal_header_bytes();
    let h = IccHeader::parse(&data).unwrap();
    assert_eq!(h.size, 132);
    assert_eq!(h.version.major, 4);
    assert_eq!(h.version.minor, 3);
    assert_eq!(h.version.patch, 0);
    assert_eq!(h.device_class, ProfileClass::Display);
    assert_eq!(h.color_space, ColorSpace::Rgb);
    assert_eq!(h.pcs, ColorSpace::Xyz);
    assert_eq!(h.version_tuple(), (4, 3, 0));
    assert!(h.is_matrix_shaper());
    assert!(h.validate(132).is_ok());
}

#[test]
fn header_parse_errors() {
    let short = vec![0u8; 64];
    assert_eq!(
        IccHeader::parse(&short),
        Err(IccError::TooSmall { expected: 128, actual: 64 })
    );

    let mut bad_sig = minimal_header_bytes();
    bad_sig[36..40].copy_from_slice(b"xxxx");
    assert_eq!(
        IccHeader::parse(&bad_sig),
        Err(IccError::InvalidSignature(u32::from_be_bytes(*b"xxxx")))
    );

    let mut bad_class = minimal_header_bytes();
    bad_class[12..16].copy_from_slice(b"zzzz");
    assert_eq!(
        IccHeader::parse(&bad_class),
        Err(IccError::InvalidProfileClass(u32::from_be_bytes(*b"zzzz")))
    );

    let h = IccHeader::parse(&minimal_header_bytes()).unwrap();
    assert_eq!(
        h.validate(100),
        Err(IccError::SizeMismatch { header_size: 132, actual_size: 100 })
    );
}
