use atomblob::{lock_extension, temp_extension};

#[test]
fn lock_file_extension_is_flock() {
    assert_eq!(lock_extension(), "flock");
}

#[test]
fn temp_extension_of_zero_is_padded() {
    assert_eq!(temp_extension(0), "00000000.tmp");
}

#[test]
fn temp_extension_of_small_numbers_is_padded() {
    assert_eq!(temp_extension(1), "00000001.tmp");
    assert_eq!(temp_extension(0xf), "0000000f.tmp");
    assert_eq!(temp_extension(0x10), "00000010.tmp");
    assert_eq!(temp_extension(255), "000000ff.tmp");
}

#[test]
fn temp_extension_uses_lower_case_digits() {
    assert_eq!(temp_extension(0xdeadbeef), "deadbeef.tmp");
    assert_eq!(temp_extension(0x0123abcd), "0123abcd.tmp");
    assert_eq!(temp_extension(0x9a8b7c6d), "9a8b7c6d.tmp");
}

#[test]
fn temp_extension_of_the_largest_number() {
    assert_eq!(temp_extension(u32::MAX), "ffffffff.tmp");
}

#[test]
fn temp_extension_matches_the_standard_formatting() {
    let samples: [u32; 8] = [
        0,
        9,
        10,
        0x1000_0000,
        0x0fff_ffff,
        0x8000_0001,
        123_456_789,
        4_000_000_000,
    ];
    for n in samples {
        assert_eq!(temp_extension(n), format!("{:08x}.tmp", n));
    }
}
