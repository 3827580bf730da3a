use iglo::rhi::vk::{pack, unpack};
use iglo::{version, Version};

#[test]
fn framework_version_is_zero() {
    assert_eq!(version(), Version::new(0, 0, 0));
    assert_eq!(version(), Version::default());
}

#[test]
fn new_keeps_its_numbers() {
    let v = Version::new(1, 2, 3);
    assert_eq!(v.major, 1);
    assert_eq!(v.minor, 2);
    assert_eq!(v.patch, 3);
}

#[test]
fn versions_are_ordered_by_major_minor_patch() {
    assert!(Version::new(1, 0, 0) > Version::new(0, 255, 65535));
    assert!(Version::new(1, 2, 0) > Version::new(1, 1, 9));
    assert!(Version::new(1, 2, 3) < Version::new(1, 2, 4));
}

#[test]
fn pack_places_the_numbers() {
    assert_eq!(pack(Version::new(0, 0, 0)), 0);
    assert_eq!(pack(Version::new(1, 2, 3)), 4_202_499);
    assert_eq!(pack(Version::new(1, 0, 0)), 1 << 22);
    assert_eq!(pack(Version::new(0, 1, 0)), 1 << 12);
    assert_eq!(pack(Version::new(0, 0, 1)), 1);
    assert_eq!(pack(Version::new(127, 255, 4095)), (127 << 22) | (255 << 12) | 4095);
}

#[test]
fn pack_agrees_with_the_binding() {
    for (major, minor, patch) in [(0u8, 0u8, 0u16), (1, 3, 268), (127, 255, 4095), (255, 255, 65535)] {
        assert_eq!(
            pack(Version::new(major, minor, patch)),
            ash::vk::make_api_version(0, major.into(), minor.into(), patch.into())
        );
    }
    assert_eq!(pack(Version::new(1, 0, 0)), ash::vk::API_VERSION_1_0);
    assert_eq!(pack(Version::new(1, 3, 0)), ash::vk::API_VERSION_1_3);
}

#[test]
fn unpack_reads_the_numbers() {
    assert_eq!(unpack(0), Some(Version::new(0, 0, 0)));
    assert_eq!(unpack(4_202_499), Some(Version::new(1, 2, 3)));
    assert_eq!(unpack(ash::vk::API_VERSION_1_2), Some(Version::new(1, 2, 0)));
}

#[test]
fn unpack_refuses_a_variant_and_a_wide_minor() {
    assert_eq!(unpack(1 << 29), None);
    assert_eq!(unpack(u32::MAX), None);
    assert_eq!(unpack(256 << 12), None);
    assert_eq!(unpack(255 << 12), Some(Version::new(0, 255, 0)));
    assert_eq!(unpack(1023 << 12), None);
}

#[test]
fn round_trip_holds_on_every_number_that_fits() {
    for major in [0u8, 1, 2, 63, 64, 126, 127] {
        for minor in [0u8, 1, 15, 16, 127, 128, 254, 255] {
            for patch in [0u16, 1, 255, 256, 2047, 2048, 4094, 4095] {
                let v = Version::new(major, minor, patch);
                assert_eq!(unpack(pack(v)), Some(v));
            }
        }
    }
}

#[test]
fn round_trip_fails_on_a_wide_patch() {
    let v = Version::new(0, 0, 4096);
    assert_eq!(pack(v), pack(Version::new(0, 1, 0)));
    assert_eq!(unpack(pack(v)), Some(Version::new(0, 1, 0)));
    assert_ne!(unpack(pack(Version::new(3, 7, 65535))), Some(Version::new(3, 7, 65535)));
}

#[test]
fn round_trip_fails_on_a_wide_major() {
    assert_eq!(unpack(pack(Version::new(128, 0, 0))), None);
    assert_eq!(unpack(pack(Version::new(255, 255, 4095))), None);
}
