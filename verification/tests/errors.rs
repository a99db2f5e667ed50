use oxcms_core::icc::IccError;
use oxcms_core::Error;

#[test]
fn error_messages() {
    assert_eq!(
        Error::ProfileParse("bad".into()).message(),
        "Profile parse error: bad"
    );
    assert_eq!(Error::InvalidProfile("x".into()).message(), "Invalid profile: x");
    assert_eq!(
        Error::UnsupportedVersion("5.0".into()).message(),
        "Unsupported profile version: 5.0"
    );
    assert_eq!(
        Error::UnsupportedColorSpace("Luv".into()).message(),
        "Unsupported color space: Luv"
    );
    assert_eq!(Error::Transform("t".into()).message(), "Transform error: t");
    assert_eq!(
        Error::BufferSize { expected: 12, actual: 0 }.message(),
        "Buffer size mismatch: expected 12, got 0"
    );
}

#[test]
fn io_errors_convert_and_carry_their_text() {
    let io = std::io::Error::new(std::io::ErrorKind::Other, "disk gone");
    let e: Error = io.into();
    assert!(matches!(e, Error::Io(_)));
    assert_eq!(e.message(), "I/O error: disk gone");
}

#[test]
fn icc_error_messages() {
    assert_eq!(
        IccError::TooSmall { expected: 128, actual: 64 }.message(),
        "Profile too small: expected 128 bytes, got 64"
    );
    assert_eq!(
        IccError::InvalidSignature(0x1234ABCD).message(),
        "Invalid profile signature: 0x1234ABCD (expected 'acsp')"
    );
    assert_eq!(
        IccError::SizeMismatch { header_size: 500, actual_size: 132 }.message(),
        "Size mismatch: header says 500 bytes, data is 132 bytes"
    );
    assert_eq!(
        IccError::TagOutOfBounds { tag: 0x64657363, offset: 140, size: 100, profile_size: 144 }
            .message(),
        "Tag '64657363' out of bounds: offset 140 + size 100 > profile size 144"
    );
    assert_eq!(
        IccError::InvalidTagType { tag: 1, type_sig: 2 }.message(),
        "Invalid type '00000002' for tag '00000001'"
    );
    assert_eq!(IccError::MissingTag(0xA).message(), "Required tag missing: '0000000A'");
    assert_eq!(IccError::InvalidColorSpace(0).message(), "Invalid color space: 0x00000000");
    assert_eq!(
        IccError::InvalidProfileClass(0xFF).message(),
        "Invalid profile class: 0x000000FF"
    );
    assert_eq!(
        IccError::InvalidRenderingIntent(9).message(),
        "Invalid rendering intent: 9"
    );
    assert_eq!(
        IccError::UnsupportedVersion { major: 5, minor: 1 }.message(),
        "Unsupported profile version: 5.1"
    );
    assert_eq!(IccError::CorruptedData("x".into()).message(), "Corrupted data: x");
    assert_eq!(IccError::Unsupported("y".into()).message(), "Unsupported feature: y");
}
