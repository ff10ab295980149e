use beacn_lib::version::VersionNumber;

#[test]
fn version_word_is_sliced_four_four_eight_sixteen() {
    let version = VersionNumber::from_word(0x1234_5678);
    assert_eq!(version, VersionNumber(1, 2, 0x34, 0x5678));
}

#[test]
fn version_parts_come_from_their_own_bits() {
    assert_eq!(VersionNumber::from_word(0xf000_0000), VersionNumber(15, 0, 0, 0));
    assert_eq!(VersionNumber::from_word(0x0f00_0000), VersionNumber(0, 15, 0, 0));
    assert_eq!(VersionNumber::from_word(0x00ff_0000), VersionNumber(0, 0, 255, 0));
    assert_eq!(VersionNumber::from_word(0x0000_ffff), VersionNumber(0, 0, 0, 65535));
}

#[test]
fn version_of_extreme_words() {
    assert_eq!(VersionNumber::from_word(0), VersionNumber(0, 0, 0, 0));
    assert_eq!(VersionNumber::from_word(u32::MAX), VersionNumber(15, 15, 255, 65535));
}

#[test]
fn version_parts_put_together_give_the_word() {
    for word in [0u32, 1, 0x1234_5678, 0x8000_0000, 0x0101_0001, u32::MAX] {
        let VersionNumber(major, minor, patch, build) = VersionNumber::from_word(word);
        assert!(major <= 15 && minor <= 15 && patch <= 255 && build <= 65535);
        assert_eq!((major << 28) | (minor << 24) | (patch << 16) | build, word);
    }
}
