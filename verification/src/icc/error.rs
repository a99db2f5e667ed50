//! ICC profile error types.

use vstd::prelude::*;

use crate::numfmt::{decimal, hex8, push_decimal, push_hex8};

verus! {

/// Errors that can occur when parsing ICC profiles.
#[derive(Debug, Clone, PartialEq, Eq)]
#[non_exhaustive]
pub enum IccError {
    /// Profile data is too small
    TooSmall { expected: usize, actual: usize },
    /// Invalid profile signature (should be 'acsp')
    InvalidSignature(u32),
    /// Profile size in header doesn't match data
    SizeMismatch { header_size: u32, actual_size: usize },
    /// Tag offset is out of bounds
    TagOutOfBounds { tag: u32, offset: u32, size: u32, profile_size: usize },
    /// Invalid tag type signature
    InvalidTagType { tag: u32, type_sig: u32 },
    /// Required tag is missing
    MissingTag(u32),
    /// Invalid color space
    InvalidColorSpace(u32),
    /// Invalid profile class
    InvalidProfileClass(u32),
    /// Invalid rendering intent
    InvalidRenderingIntent(u32),
    /// Unsupported profile version
    UnsupportedVersion { major: u8, minor: u8 },
    /// Corrupted or invalid data
    CorruptedData(String),
    /// Unsupported feature
    Unsupported(String),
}

/// The human-readable message of an error.
pub open spec fn icc_error_message(e: IccError) -> Seq<char> {
    match e {
        IccError::TooSmall { expected, actual } => "Profile too small: expected "@ + decimal(
            expected as nat,
        ) + " bytes, got "@ + decimal(actual as nat),
        IccError::InvalidSignature(sig) => "Invalid profile signature: 0x"@ + hex8(sig)
            + " (expected 'acsp')"@,
        IccError::SizeMismatch { header_size, actual_size } => "Size mismatch: header says "@
            + decimal(header_size as nat) + " bytes, data is "@ + decimal(actual_size as nat)
            + " bytes"@,
        IccError::TagOutOfBounds { tag, offset, size, profile_size } => "Tag '"@ + hex8(tag)
            + "' out of bounds: offset "@ + decimal(offset as nat) + " + size "@ + decimal(
            size as nat,
        ) + " > profile size "@ + decimal(profile_size as nat),
        IccError::InvalidTagType { tag, type_sig } => "Invalid type '"@ + hex8(type_sig)
            + "' for tag '"@ + hex8(tag) + "'"@,
        IccError::MissingTag(tag) => "Required tag missing: '"@ + hex8(tag) + "'"@,
        IccError::InvalidColorSpace(cs) => "Invalid color space: 0x"@ + hex8(cs),
        IccError::InvalidProfileClass(class) => "Invalid profile class: 0x"@ + hex8(class),
        IccError::InvalidRenderingIntent(intent) => "Invalid rendering intent: "@ + decimal(
            intent as nat,
        ),
        IccError::UnsupportedVersion { major, minor } => "Unsupported profile version: "@
            + decimal(major as nat) + "."@ + decimal(minor as nat),
        IccError::CorruptedData(msg) => "Corrupted data: "@ + msg@,
        IccError::Unsupported(msg) => "Unsupported feature: "@ + msg@,
    }
}

impl IccError {
    /// The human-readable message of this error.
    pub fn message(&self) -> (r: String)
        ensures
            r@ == icc_error_message(*self),
    {
        let mut s = String::new();
        match self {
            IccError::TooSmall { expected, actual } => {
                s.append("Profile too small: expected ");
                push_decimal(&mut s, *expected as u64);
                s.append(" bytes, got ");
                push_decimal(&mut s, *actual as u64);
            },
            IccError::InvalidSignature(sig) => {
                s.append("Invalid profile signature: 0x");
                push_hex8(&mut s, *sig);
                s.append(" (expected 'acsp')");
            },
            IccError::SizeMismatch { header_size, actual_size } => {
                s.append("Size mismatch: header says ");
                push_decimal(&mut s, *header_size as u64);
                s.append(" bytes, data is ");
                push_decimal(&mut s, *actual_size as u64);
                s.append(" bytes");
            },
            IccError::TagOutOfBounds { tag, offset, size, profile_size } => {
                s.append("Tag '");
                push_hex8(&mut s, *tag);
                s.append("' out of bounds: offset ");
                push_decimal(&mut s, *offset as u64);
                s.append(" + size ");
                push_decimal(&mut s, *size as u64);
                s.append(" > profile size ");
                push_decimal(&mut s, *profile_size as u64);
            },
            IccError::InvalidTagType { tag, type_sig } => {
                s.append("Invalid type '");
                push_hex8(&mut s, *type_sig);
                s.append("' for tag '");
                push_hex8(&mut s, *tag);
                s.append("'");
            },
            IccError::MissingTag(tag) => {
                s.append("Required tag missing: '");
                push_hex8(&mut s, *tag);
                s.append("'");
            },
            IccError::InvalidColorSpace(cs) => {
                s.append("Invalid color space: 0x");
                push_hex8(&mut s, *cs);
            },
            IccError::InvalidProfileClass(class) => {
                s.append("Invalid profile class: 0x");
                push_hex8(&mut s, *class);
            },
            IccError::InvalidRenderingIntent(intent) => {
                s.append("Invalid rendering intent: ");
                push_decimal(&mut s, *intent as u64);
            },
            IccError::UnsupportedVersion { major, minor } => {
                s.append("Unsupported profile version: ");
                push_decimal(&mut s, *major as u64);
                s.append(".");
                push_decimal(&mut s, *minor as u64);
            },
            IccError::CorruptedData(msg) => {
                s.append("Corrupted data: ");
                s.append(msg.as_str());
            },
            IccError::Unsupported(msg) => {
                s.append("Unsupported feature: ");
                s.append(msg.as_str());
            },
        }
        proof {
            assert(s@ =~= icc_error_message(*self));
        }
        s
    }
}

} // verus!
