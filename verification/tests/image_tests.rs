use kvmrsk::image::{VectorImage, FIXUP_1, FIXUP_2};

fn fresh_image(fill: u8) -> VectorImage {
    VectorImage {
        base: 0x4000,
        bytes: vec![fill; 0x900],
    }
}

#[test]
fn fixup_slot_1_holds_little_endian_address() {
    let mut img = fresh_image(0xAB);
    img.write_fixup_1(0x1122_3344_5566_7788);
    let expect = [0x88u8, 0x77, 0x66, 0x55, 0x44, 0x33, 0x22, 0x11];
    for (k, b) in expect.iter().enumerate() {
        assert_eq!(img.bytes[FIXUP_1 + k], *b);
    }
}

#[test]
fn fixup_slot_1_write_is_isolated() {
    let mut img = fresh_image(0xAB);
    img.write_fixup_1(0xFFFF_FFFF_FFFF_FFFF);
    for i in 0..img.bytes.len() {
        if i < FIXUP_1 || i >= FIXUP_1 + 8 {
            assert_eq!(img.bytes[i], 0xAB, "byte {} changed", i);
        }
    }
}

#[test]
fn fixup_slot_2_holds_little_endian_words() {
    let mut img = fresh_image(0x00);
    let words: Vec<u32> = vec![0x0102_0304, 0x1112_1314, 0x2122_2324, 0x3132_3334, 0x4142_4344];
    img.write_fixup_2(&words);
    for (w, word) in words.iter().enumerate() {
        let off = FIXUP_2 + 4 * w;
        let got = (img.bytes[off] as u32)
            | ((img.bytes[off + 1] as u32) << 8)
            | ((img.bytes[off + 2] as u32) << 16)
            | ((img.bytes[off + 3] as u32) << 24);
        assert_eq!(got, *word);
    }
}

#[test]
fn fixup_slot_2_write_is_isolated() {
    let mut img = fresh_image(0x5A);
    let words: Vec<u32> = vec![!0, !0, !0, !0, !0];
    img.write_fixup_2(&words);
    for i in 0..img.bytes.len() {
        if i < FIXUP_2 || i >= FIXUP_2 + 20 {
            assert_eq!(img.bytes[i], 0x5A, "byte {} changed", i);
        }
    }
}

#[test]
fn both_slots_coexist() {
    let mut img = fresh_image(0x00);
    img.write_fixup_1(0xDEAD_BEEF);
    img.write_fixup_2(&vec![1, 2, 3, 4, 5]);
    // slot 2's write left slot 1 intact
    assert_eq!(img.bytes[FIXUP_1], 0xEF);
    assert_eq!(img.bytes[FIXUP_1 + 1], 0xBE);
    assert_eq!(img.bytes[FIXUP_1 + 2], 0xAD);
    assert_eq!(img.bytes[FIXUP_1 + 3], 0xDE);
    assert_eq!(img.bytes[FIXUP_2], 1);
}
