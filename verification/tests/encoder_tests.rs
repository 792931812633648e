use kvmrsk::encoder::{assemble_absolute_load, encode_jump_sequence};

#[test]
fn encodes_exact_words_for_known_address() {
    let words = encode_jump_sequence(0x1234_5678_9abc_def0);
    assert_eq!(
        words,
        vec![0xD29B_DE12, 0xF2B3_5792, 0xF2CA_CF12, 0xF2E2_4692, 0xD63F_0240]
    );
}

#[test]
fn encoder_is_deterministic() {
    let a = encode_jump_sequence(0xFFFF_FFFF_FFFF_FFFF);
    let b = encode_jump_sequence(0xFFFF_FFFF_FFFF_FFFF);
    assert_eq!(a, b);
    assert_eq!(a.len(), 5);
}

#[test]
fn encodes_zero_address() {
    let words = encode_jump_sequence(0);
    assert_eq!(
        words,
        vec![0xD280_0012, 0xF2A0_0012, 0xF2C0_0012, 0xF2E0_0012, 0xD63F_0240]
    );
}

#[test]
fn assemble_fills_loads_and_leaves_trailer_slot() {
    let mut out: Vec<u32> = vec![1, 2, 3, 4, 99];
    assemble_absolute_load(5, 0, &mut out);
    assert_eq!(out, vec![0xD280_0005, 0xF2A0_0005, 0xF2C0_0005, 0xF2E0_0005, 99]);
}

#[test]
fn assemble_covers_all_four_slices() {
    let mut out: Vec<u32> = vec![0; 5];
    assemble_absolute_load(18, 0x0001_0002_0003_0004, &mut out);
    // each 16-bit slice lands in its own word's immediate field (bits [20:5])
    assert_eq!((out[0] >> 5) & 0xffff, 0x0004);
    assert_eq!((out[1] >> 5) & 0xffff, 0x0003);
    assert_eq!((out[2] >> 5) & 0xffff, 0x0002);
    assert_eq!((out[3] >> 5) & 0xffff, 0x0001);
    // every word names register 18
    for w in 0..4 {
        assert_eq!(out[w] & 0x1f, 18);
    }
}
