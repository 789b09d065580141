use qubicon_vulkan::instance::create_info::{AppId, Version};
use std::cmp::Ordering;

#[test]
fn version_parts_round_trip() {
    let v = Version::new(1, 2, 3, 4);
    assert_eq!(v.variant(), 1);
    assert_eq!(v.major(), 2);
    assert_eq!(v.minor(), 3);
    assert_eq!(v.patch(), 4);
    assert_eq!(u32::from(v), ash::vk::make_api_version(1, 2, 3, 4));
    assert_eq!(v.into_raw(), (1 << 29) | (2 << 22) | (3 << 12) | 4);
}

#[test]
fn version_parts_that_overflow_their_field_spill() {
    // a patch of 4096 spills into the minor field
    let v = Version::new(0, 1, 0, 4096);
    assert_eq!(v.patch(), 0);
    assert_eq!(v.minor(), 1);
}

#[test]
fn version_order_skips_major() {
    let a = Version::new(0, 1, 2, 0);
    let b = Version::new(0, 5, 2, 0);
    assert_eq!(a.partial_cmp(&b), Some(Ordering::Equal));
    let c = Version::new(0, 9, 1, 7);
    assert_eq!(c.partial_cmp(&a), Some(Ordering::Less));
    assert_eq!(a.partial_cmp(&c), Some(Ordering::Greater));
    assert!(Version::new(1, 0, 0, 0) > Version::new(0, 127, 1023, 4095));
}

#[test]
fn every_api_version_is_accepted() {
    for v in [Version::new(0, 0, 0, 0), Version::new(0, 0, 5, 1), Version::new(0, 1, 3, 0), Version::new(7, 0, 0, 0)] {
        let id = AppId { vulkan_version: v, ..Default::default() };
        assert_eq!(id.validate(), Ok(()));
    }
}

use qubicon_vulkan::instance::version_text::{IntParseError, VersionParseError};

#[test]
fn versions_read_from_text() {
    let v: Version = "1.3.250".parse().unwrap();
    assert_eq!((v.variant(), v.major(), v.minor(), v.patch()), (0, 1, 3, 250));
    assert_eq!(Version::parse("+1.2.3.4"), Ok(Version::new(0, 1, 2, 3)));
    assert_eq!(Version::parse("1.2"), Err(VersionParseError::MissingPart));
    assert_eq!(Version::parse("1"), Err(VersionParseError::MissingPart));
    assert_eq!(Version::parse(""), Err(VersionParseError::Number(IntParseError::Empty)));
    assert_eq!(Version::parse("1..3"), Err(VersionParseError::Number(IntParseError::Empty)));
    assert_eq!(Version::parse("1.x.3"), Err(VersionParseError::Number(IntParseError::InvalidDigit)));
    assert_eq!(Version::parse("-1.2.3"), Err(VersionParseError::Number(IntParseError::InvalidDigit)));
    assert_eq!(Version::parse("+.2.3"), Err(VersionParseError::Number(IntParseError::InvalidDigit)));
    assert_eq!(Version::parse("4294967296.0.0"), Err(VersionParseError::Number(IntParseError::PosOverflow)));
    assert_eq!(Version::parse("4294967295.0.0").map(|v| v.into_raw()), Ok(ash::vk::make_api_version(0, u32::MAX, 0, 0)));
    // the parts are read like `u32::from_str` reads them
    for text in ["0", "+7", "007", "4294967295", "4294967296", "12a", "", "+", "-", "-3"] {
        let full = format!("1.1.{}", text);
        let ours = Version::parse(&full).map(|v| v.patch());
        let std = text.parse::<u32>().map(|p| ash::vk::api_version_patch(ash::vk::make_api_version(0, 1, 1, p)));
        assert_eq!(ours.is_ok(), std.is_ok(), "{}", text);
        if let (Ok(a), Ok(b)) = (ours, std) {
            assert_eq!(a, b);
        }
    }
}

#[test]
fn versions_are_written_as_major_minor_patch() {
    assert_eq!(Version::new(0, 1, 3, 250).to_text(), "1.3.250");
    assert_eq!(Version::new(0, 0, 0, 0).to_text(), "0.0.0");
    assert_eq!(Version::new(0, 127, 1023, 4095).to_text(), "127.1023.4095");
    // the variant is not shown
    assert_eq!(Version::new(3, 1, 2, 10).to_text(), "1.2.10");
}

#[test]
fn written_versions_read_back() {
    for v in [Version::new(0, 1, 0, 0), Version::new(0, 1, 3, 250), Version::new(0, 127, 1023, 4095)] {
        assert_eq!(Version::parse(&v.to_text()), Ok(v));
        assert_eq!(v.to_text().parse::<Version>(), Ok(v));
    }
}

#[test]
fn version_order_is_transitive() {
    let a = Version::new(0, 9, 1, 0);
    let b = Version::new(0, 1, 2, 0);
    let c = Version::new(0, 1, 2, 7);
    assert_eq!(a.partial_cmp(&b), Some(Ordering::Less));
    assert_eq!(b.partial_cmp(&c), Some(Ordering::Less));
    assert_eq!(a.partial_cmp(&c), Some(Ordering::Less));
    assert!(a < c);
}
