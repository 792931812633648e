//! The relocated vector image: one contiguous byte region holding a copy of
//! the vector-table template, with two fixup slots at fixed offsets — slot 1
//! takes a 64-bit physical address, slot 2 takes the generated jump sequence.

use vstd::prelude::*;

verus! {

/// Byte offset of fixup slot 1 inside the image: a 64-bit address hole.
pub const FIXUP_1: usize = 0x800;
/// Width of fixup slot 1 in bytes.
pub const FIXUP_1_LEN: usize = 8;
/// Byte offset of fixup slot 2 inside the image: the jump-sequence hole.
pub const FIXUP_2: usize = 0x810;
/// Width of fixup slot 2 in bytes: five 32-bit instruction words.
pub const FIXUP_2_LEN: usize = 20;
/// Smallest extent a vector-table template may have: both slots must fit.
pub const MIN_IMAGE_LEN: usize = 0x824;

/// Whether byte index `i` lies inside fixup slot 1.
pub open spec fn in_fixup_1(i: int) -> bool {
    FIXUP_1 <= i < FIXUP_1 + FIXUP_1_LEN
}

/// Whether byte index `i` lies inside fixup slot 2.
pub open spec fn in_fixup_2(i: int) -> bool {
    FIXUP_2 <= i < FIXUP_2 + FIXUP_2_LEN
}

/// The 32-bit word stored little-endian at byte offset `off` of `b`.
pub open spec fn word_at(b: Seq<u8>, off: int) -> u32 {
    (b[off] as u32) | ((b[off + 1] as u32) << 8) | ((b[off + 2] as u32) << 16) | ((b[off + 3]
        as u32) << 24)
}

/// The `w`-th instruction word of fixup slot 2, read little-endian.
pub open spec fn word_at_slot2(b: Seq<u8>, w: int) -> u32 {
    word_at(b, FIXUP_2 + 4 * w)
}

/// The 64-bit value stored little-endian at byte offset `off` of `b`.
pub open spec fn qword_at(b: Seq<u8>, off: int) -> u64 {
    (word_at(b, off) as u64) | ((word_at(b, off + 4) as u64) << 32)
}

/// A contiguous relocated copy of the vector-table template. Contiguity is
/// built in: one base address and one byte run describe the whole image, so a
/// single physical address can name it to the hypervisor.
pub struct VectorImage {
    /// Virtual base address of the region.
    pub base: u64,
    /// The bytes of the region: template copy plus trailing handler code.
    pub bytes: Vec<u8>,
}

impl VectorImage {
    /// The image is large enough that both fixup slots lie inside it.
    pub open spec fn wf(self) -> bool {
        MIN_IMAGE_LEN <= self.bytes@.len()
    }

    /// Writes the 64-bit value `pa` little-endian into fixup slot 1. No byte
    /// outside the slot's eight bytes changes.
    pub fn write_fixup_1(&mut self, pa: u64)
        requires
            old(self).wf(),
        ensures
            final(self).wf(),
            final(self).base == old(self).base,
            final(self).bytes@.len() == old(self).bytes@.len(),
            qword_at(final(self).bytes@, FIXUP_1 as int) == pa,
            forall|i: int|
                #![trigger final(self).bytes@[i]]
                 0 <= i < old(self).bytes@.len() && !in_fixup_1(i) ==> final(self).bytes@[i] == old(
                    self,
                ).bytes@[i],
    {
        let b0: u8 = (pa & 0xff) as u8;
        let b1: u8 = ((pa >> 8) & 0xff) as u8;
        let b2: u8 = ((pa >> 16) & 0xff) as u8;
        let b3: u8 = ((pa >> 24) & 0xff) as u8;
        let b4: u8 = ((pa >> 32) & 0xff) as u8;
        let b5: u8 = ((pa >> 40) & 0xff) as u8;
        let b6: u8 = ((pa >> 48) & 0xff) as u8;
        let b7: u8 = ((pa >> 56) & 0xff) as u8;
        self.bytes[FIXUP_1] = b0;
        self.bytes[FIXUP_1 + 1] = b1;
        self.bytes[FIXUP_1 + 2] = b2;
        self.bytes[FIXUP_1 + 3] = b3;
        self.bytes[FIXUP_1 + 4] = b4;
        self.bytes[FIXUP_1 + 5] = b5;
        self.bytes[FIXUP_1 + 6] = b6;
        self.bytes[FIXUP_1 + 7] = b7;
        proof {
            lemma_qword_le_bytes(pa);
        }
    }

    /// Writes one instruction word little-endian at byte offset `off`. No
    /// byte outside the word's four bytes changes.
    fn write_word(&mut self, off: usize, w: u32)
        requires
            off + 4 <= old(self).bytes@.len(),
        ensures
            final(self).base == old(self).base,
            final(self).bytes@.len() == old(self).bytes@.len(),
            word_at(final(self).bytes@, off as int) == w,
            forall|i: int|
                #![trigger final(self).bytes@[i]]
                 0 <= i < old(self).bytes@.len() && !(off <= i < off + 4) ==> final(self).bytes@[i]
                    == old(self).bytes@[i],
    {
        let n = self.bytes.len();
        assert(off + 4 <= n);
        let b0: u8 = (w & 0xff) as u8;
        let b1: u8 = ((w >> 8) & 0xff) as u8;
        let b2: u8 = ((w >> 16) & 0xff) as u8;
        let b3: u8 = ((w >> 24) & 0xff) as u8;
        self.bytes[off] = b0;
        self.bytes[off + 1] = b1;
        self.bytes[off + 2] = b2;
        self.bytes[off + 3] = b3;
        proof {
            lemma_word_le_bytes(w);
        }
    }

    /// Overwrites fixup slot 2 with the five-word jump sequence `words`. No
    /// byte outside the slot's twenty bytes changes.
    pub fn write_fixup_2(&mut self, words: &Vec<u32>)
        requires
            old(self).wf(),
            words@.len() == 5,
        ensures
            final(self).wf(),
            final(self).base == old(self).base,
            final(self).bytes@.len() == old(self).bytes@.len(),
            forall|w: int|
                0 <= w < 5 ==> word_at(final(self).bytes@, FIXUP_2 + 4 * w) == words@[w],
            forall|i: int|
                #![trigger final(self).bytes@[i]]
                 0 <= i < old(self).bytes@.len() && !in_fixup_2(i) ==> final(self).bytes@[i] == old(
                    self,
                ).bytes@[i],
    {
        self.write_word(FIXUP_2, words[0]);
        self.write_word(FIXUP_2 + 4, words[1]);
        self.write_word(FIXUP_2 + 8, words[2]);
        self.write_word(FIXUP_2 + 12, words[3]);
        self.write_word(FIXUP_2 + 16, words[4]);
    }
}

/// The little-endian bytes of a 32-bit word recompose to the word.
proof fn lemma_word_le_bytes(w: u32)
    ensures
        ((w & 0xff) as u8 as u32) | ((((w >> 8) & 0xff) as u8 as u32) << 8) | ((((w >> 16)
            & 0xff) as u8 as u32) << 16) | ((((w >> 24) & 0xff) as u8 as u32) << 24) == w,
{
    assert(((w & 0xff) as u8 as u32) | ((((w >> 8) & 0xff) as u8 as u32) << 8) | ((((w >> 16)
        & 0xff) as u8 as u32) << 16) | ((((w >> 24) & 0xff) as u8 as u32) << 24) == w)
        by (bit_vector);
}

/// The little-endian bytes of a 64-bit value recompose to the value through
/// its two 32-bit halves.
proof fn lemma_qword_le_bytes(v: u64)
    ensures
        ((((v & 0xff) as u8 as u32) | ((((v >> 8) & 0xff) as u8 as u32) << 8) | ((((v >> 16)
            & 0xff) as u8 as u32) << 16) | ((((v >> 24) & 0xff) as u8 as u32) << 24)) as u64) | (((
        (((v >> 32) & 0xff) as u8 as u32) | ((((v >> 40) & 0xff) as u8 as u32) << 8) | ((((v >> 48)
            & 0xff) as u8 as u32) << 16) | ((((v >> 56) & 0xff) as u8 as u32) << 24)) as u64)
            << 32) == v,
{
    assert(((((v & 0xff) as u8 as u32) | ((((v >> 8) & 0xff) as u8 as u32) << 8) | ((((v >> 16)
        & 0xff) as u8 as u32) << 16) | ((((v >> 24) & 0xff) as u8 as u32) << 24)) as u64) | ((((((v
        >> 32) & 0xff) as u8 as u32) | ((((v >> 40) & 0xff) as u8 as u32) << 8) | ((((v >> 48)
        & 0xff) as u8 as u32) << 16) | ((((v >> 56) & 0xff) as u8 as u32) << 24)) as u64) << 32)
        == v) by (bit_vector);
}

} // verus!
