//! Instruction encoder: synthesizes the fixed-length sequence of machine
//! instructions that loads an arbitrary 64-bit address into a register through
//! four 16-bit partial-immediate loads and then jumps through that register.

use vstd::prelude::*;

verus! {

/// Base opcode of `movz Xd, #imm16` (left shift 0): the first load word.
pub const MOVZ_BASE: u32 = 0xD280_0000;
/// Base opcode of `movk Xd, #imm16, lsl #(16*hw)` before the hw field is set.
pub const MOVK_BASE: u32 = 0xF280_0000;
/// Base opcode of the register-indirect jump; bits [9:5] name the register.
pub const JUMP_BASE: u32 = 0xD63F_0000;
/// The register the generated jump sequence loads the target address into.
pub const SHELLCODE_REG: u32 = 0x12;
/// The constant trailer word of every generated sequence: a jump through
/// `SHELLCODE_REG`, independent of the target address.
pub const JUMP_TRAILER: u32 = 0xD63F_0240;
/// Number of 32-bit words in a generated jump sequence: four loads + trailer.
pub const JUMP_SEQ_WORDS: usize = 5;

/// The four load words that place `addr` into `reg`, one 16-bit slice each:
/// a `movz` for bits [15:0], then `movk` words for the three upper slices.
pub open spec fn jump_load_words(reg: u32, addr: u64) -> Seq<u32> {
    seq![
        MOVZ_BASE | (reg & 0x1f) | ((((addr) & 0xffff) as u32) << 5),
        MOVK_BASE | 0x0020_0000 | (reg & 0x1f) | ((((addr >> 16) & 0xffff) as u32) << 5),
        MOVK_BASE | 0x0040_0000 | (reg & 0x1f) | ((((addr >> 32) & 0xffff) as u32) << 5),
        MOVK_BASE | 0x0060_0000 | (reg & 0x1f) | ((((addr >> 48) & 0xffff) as u32) << 5),
    ]
}

/// The register-indirect jump word through `reg`.
pub open spec fn jump_word(reg: u32) -> u32 {
    JUMP_BASE | ((reg & 0x1f) << 5)
}

/// The full generated sequence: load `addr` into `SHELLCODE_REG`, then jump
/// through it.
pub open spec fn jump_words(addr: u64) -> Seq<u32> {
    jump_load_words(SHELLCODE_REG, addr).push(JUMP_TRAILER)
}

/// Reference decoder: the register field of a load word.
pub open spec fn word_reg(w: u32) -> u32 {
    w & 0x1f
}

/// Reference decoder: the 16-bit immediate carried by a load word.
pub open spec fn word_imm(w: u32) -> u64 {
    ((w >> 5) & 0xffff) as u64
}

/// Reference decoder: `ws` has the exact shape of a generated sequence —
/// a `movz` of slice 0, `movk`s of slices 1 to 3, all naming one register,
/// and a final jump through that same register.
pub open spec fn is_jump_sequence(ws: Seq<u32>) -> bool {
    &&& ws.len() == JUMP_SEQ_WORDS
    &&& ws[0] & 0xFFE0_0000 == MOVZ_BASE
    &&& ws[1] & 0xFFE0_0000 == MOVK_BASE | 0x0020_0000
    &&& ws[2] & 0xFFE0_0000 == MOVK_BASE | 0x0040_0000
    &&& ws[3] & 0xFFE0_0000 == MOVK_BASE | 0x0060_0000
    &&& word_reg(ws[1]) == word_reg(ws[0])
    &&& word_reg(ws[2]) == word_reg(ws[0])
    &&& word_reg(ws[3]) == word_reg(ws[0])
    &&& ws[4] == jump_word(word_reg(ws[0]))
}

/// Reference decoder: the address a generated sequence loads, reassembled
/// from the four 16-bit immediates.
pub open spec fn decoded_target(ws: Seq<u32>) -> u64 {
    word_imm(ws[0]) | (word_imm(ws[1]) << 16) | (word_imm(ws[2]) << 32) | (word_imm(ws[3]) << 48)
}

/// Reference decoder: which register and address a word sequence loads and
/// jumps to, or `None` if it is not a generated jump sequence.
pub open spec fn decode_jump_sequence(ws: Seq<u32>) -> Option<(u32, u64)> {
    if is_jump_sequence(ws) {
        Some((word_reg(ws[0]), decoded_target(ws)))
    } else {
        None
    }
}

/// Law: the encoder is exact — interpreting the generated sequence with the
/// reference decoder recovers precisely the requested register and address,
/// for every 64-bit address.
pub proof fn lemma_jump_sequence_decodes(reg: u32, addr: u64)
    requires
        reg < 32,
    ensures
        decode_jump_sequence(jump_load_words(reg, addr).push(jump_word(reg))) == Some(
            (reg, addr),
        ),
{
    let ws = jump_load_words(reg, addr).push(jump_word(reg));
    assert(ws[0] == MOVZ_BASE | (reg & 0x1f) | ((((addr) & 0xffff) as u32) << 5));
    assert(ws[1] == MOVK_BASE | 0x0020_0000 | (reg & 0x1f) | ((((addr >> 16) & 0xffff) as u32)
        << 5));
    assert(ws[2] == MOVK_BASE | 0x0040_0000 | (reg & 0x1f) | ((((addr >> 32) & 0xffff) as u32)
        << 5));
    assert(ws[3] == MOVK_BASE | 0x0060_0000 | (reg & 0x1f) | ((((addr >> 48) & 0xffff) as u32)
        << 5));
    assert(ws[4] == jump_word(reg));
    assert((MOVZ_BASE | (reg & 0x1f) | ((((addr) & 0xffff) as u32) << 5)) & 0xFFE0_0000
        == MOVZ_BASE) by (bit_vector);
    assert((MOVK_BASE | 0x0020_0000 | (reg & 0x1f) | ((((addr >> 16) & 0xffff) as u32) << 5))
        & 0xFFE0_0000 == MOVK_BASE | 0x0020_0000) by (bit_vector);
    assert((MOVK_BASE | 0x0040_0000 | (reg & 0x1f) | ((((addr >> 32) & 0xffff) as u32) << 5))
        & 0xFFE0_0000 == MOVK_BASE | 0x0040_0000) by (bit_vector);
    assert((MOVK_BASE | 0x0060_0000 | (reg & 0x1f) | ((((addr >> 48) & 0xffff) as u32) << 5))
        & 0xFFE0_0000 == MOVK_BASE | 0x0060_0000) by (bit_vector);
    assert((MOVZ_BASE | (reg & 0x1f) | ((((addr) & 0xffff) as u32) << 5)) & 0x1f == reg)
        by (bit_vector)
        requires
            reg < 32,
    ;
    assert((MOVK_BASE | 0x0020_0000 | (reg & 0x1f) | ((((addr >> 16) & 0xffff) as u32) << 5))
        & 0x1f == reg) by (bit_vector)
        requires
            reg < 32,
    ;
    assert((MOVK_BASE | 0x0040_0000 | (reg & 0x1f) | ((((addr >> 32) & 0xffff) as u32) << 5))
        & 0x1f == reg) by (bit_vector)
        requires
            reg < 32,
    ;
    assert((MOVK_BASE | 0x0060_0000 | (reg & 0x1f) | ((((addr >> 48) & 0xffff) as u32) << 5))
        & 0x1f == reg) by (bit_vector)
        requires
            reg < 32,
    ;
    assert((((MOVZ_BASE | (reg & 0x1f) | ((((addr) & 0xffff) as u32) << 5)) >> 5) & 0xffff) as u64
        == addr & 0xffff) by (bit_vector);
    assert((((MOVK_BASE | 0x0020_0000 | (reg & 0x1f) | ((((addr >> 16) & 0xffff) as u32) << 5))
        >> 5) & 0xffff) as u64 == (addr >> 16) & 0xffff) by (bit_vector);
    assert((((MOVK_BASE | 0x0040_0000 | (reg & 0x1f) | ((((addr >> 32) & 0xffff) as u32) << 5))
        >> 5) & 0xffff) as u64 == (addr >> 32) & 0xffff) by (bit_vector);
    assert((((MOVK_BASE | 0x0060_0000 | (reg & 0x1f) | ((((addr >> 48) & 0xffff) as u32) << 5))
        >> 5) & 0xffff) as u64 == (addr >> 48) & 0xffff) by (bit_vector);
    assert((addr & 0xffff) | (((addr >> 16) & 0xffff) << 16) | (((addr >> 32) & 0xffff) << 32) | ((
    (addr >> 48) & 0xffff) << 48) == addr) by (bit_vector);
}

/// Law: the generated jump-to-handler sequence decodes back to
/// `SHELLCODE_REG` and the handler address it was built for.
pub proof fn lemma_encoder_exact(addr: u64)
    ensures
        decode_jump_sequence(jump_words(addr)) == Some((SHELLCODE_REG, addr)),
{
    assert(JUMP_BASE | ((0x12u32 & 0x1f) << 5) == 0xD63F_0240u32) by (bit_vector);
    lemma_jump_sequence_decodes(SHELLCODE_REG, addr);
    assert(jump_words(addr) == jump_load_words(SHELLCODE_REG, addr).push(jump_word(SHELLCODE_REG)));
}

/// Writes the four load words for `addr` into `output[0..4]`, leaving the
/// trailer position untouched: the caller appends the jump word itself.
pub fn assemble_absolute_load(reg: u32, addr: u64, output: &mut Vec<u32>)
    requires
        reg < 32,
        old(output).len() == JUMP_SEQ_WORDS,
    ensures
        final(output)@.len() == JUMP_SEQ_WORDS,
        final(output)@.subrange(0, 4) == jump_load_words(reg, addr),
        final(output)@[4] == old(output)@[4],
{
    let w0: u32 = MOVZ_BASE | (reg & 0x1f) | ((((addr) & 0xffff) as u32) << 5);
    let w1: u32 = MOVK_BASE | 0x0020_0000 | (reg & 0x1f) | ((((addr >> 16) & 0xffff) as u32) << 5);
    let w2: u32 = MOVK_BASE | 0x0040_0000 | (reg & 0x1f) | ((((addr >> 32) & 0xffff) as u32) << 5);
    let w3: u32 = MOVK_BASE | 0x0060_0000 | (reg & 0x1f) | ((((addr >> 48) & 0xffff) as u32) << 5);
    output[0] = w0;
    output[1] = w1;
    output[2] = w2;
    output[3] = w3;
    proof {
        assert(output@.subrange(0, 4) =~= jump_load_words(reg, addr));
    }
}

/// Generates the full jump sequence for `addr`: four loads into
/// `SHELLCODE_REG` followed by the constant jump trailer.
pub fn encode_jump_sequence(addr: u64) -> (out: Vec<u32>)
    ensures
        out@ == jump_words(addr),
{
    let mut out: Vec<u32> = Vec::new();
    out.push(0);
    out.push(0);
    out.push(0);
    out.push(0);
    out.push(0);
    assemble_absolute_load(SHELLCODE_REG, addr, &mut out);
    out[4] = JUMP_TRAILER;
    proof {
        assert(out@ =~= jump_words(addr));
    }
    out
}

} // verus!
