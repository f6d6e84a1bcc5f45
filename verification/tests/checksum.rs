use codec_bench::checksum::adler32;

#[test]
fn adler32_empty_is_one() {
    assert_eq!(adler32(&[]), 1);
}

#[test]
fn adler32_single_byte() {
    // s1 = 1 + 0x41 = 66, s2 = 66 -> 66 * 65536 + 66
    assert_eq!(adler32(&[0x41]), 4325442);
}

#[test]
fn adler32_known_value() {
    // The checksum of the ASCII bytes of "Wikipedia".
    assert_eq!(adler32(b"Wikipedia"), 0x11E60398);
}

#[test]
fn adler32_wraps_modulo_65521() {
    // 65520 bytes of 0xff drive both sums across the modulus.
    let data = vec![0xffu8; 65520];
    let mut s1: u64 = 1;
    let mut s2: u64 = 0;
    for &b in &data {
        s1 = (s1 + b as u64) % 65521;
        s2 = (s2 + s1) % 65521;
    }
    assert_eq!(adler32(&data) as u64, s2 * 65536 + s1);
}
