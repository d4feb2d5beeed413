use leg_sim::bits::SmallUInt;

#[test]
fn smalluint_new() {
    let s0 = SmallUInt::new(8, 0);
    assert_eq!(s0.size, 8);
    assert_eq!(s0.bits, [false; 8]);

    // 128 64 32 16 8 4 2 1
    // 1   1  0  0  1 1 0 1   = 205
    // ^ ignore ^  | ^ pack ^
    let s5 = SmallUInt::new(4, 205);
    assert_eq!(s5.size, 4);
    assert_eq!(s5.bits, [true, false, true, true]);
}

#[test]
fn smalluint_as_u8() {
    let s5 = SmallUInt::new(4, 205);
    assert_eq!(s5.as_u8(), 13);
}

#[test]
fn smalluint_round_trip_low_bits() {
    for size in 0..9usize {
        for v in [0u8, 1, 7, 100, 205, 255] {
            let s = SmallUInt::new(size, v);
            let kept = if size == 8 { v } else { v % (1u8 << size) };
            assert_eq!(s.as_u8(), kept, "size {} value {}", size, v);
        }
    }
}
