use std::str::FromStr;

use komac::types::package_version::{PackageVersion, PackageVersionError};

const DISALLOWED_CHARACTERS: [char; 9] = ['<', '>', ':', '"', '/', '\\', '|', '?', '*'];

#[test]
fn package_version_disallowed_characters() {
    for char in DISALLOWED_CHARACTERS {
        let version = format!("1.2{char}3");

        assert_eq!(
            PackageVersion::from_str(&version).err(),
            Some(PackageVersionError::DisallowedCharacters)
        )
    }
}

#[test]
fn package_version_contains_control_chars() {
    assert_eq!(
        PackageVersion::from_str("1.2\03").err(),
        Some(PackageVersionError::ContainsControlChars)
    );
}

#[test]
fn unicode_package_version_max_length() {
    let version: String = "\u{1F980}".repeat(128);

    // Ensure that it's character length that's being checked and not byte or UTF-16 length
    assert!(version.len() > 128);
    assert!(version.encode_utf16().count() > 128);
    assert_eq!(version.chars().count(), 128);
    assert!(version.parse::<PackageVersion>().is_ok());
}

#[test]
fn package_version_too_long() {
    let version: String = "\u{1F980}".repeat(129);

    assert_eq!(
        version.parse::<PackageVersion>().err(),
        Some(PackageVersionError::TooLong)
    );
}

#[test]
fn package_version_accepts_plain_version() {
    let version = PackageVersion::from_str("1.2.3").unwrap();
    assert_eq!(version.as_str(), "1.2.3");
}
