//! Bit-level layout of the three instruction formats.
//!
//! R-type: opcode(6)=0 | rs(5) | rt(5) | rd(5) | shamt(5)=0 | funct(6)
//! I-type: opcode(6) | rs(5) | rt(5) | immediate(16)
//! J-type: opcode(6)=2 | address(26)

use vstd::prelude::*;

verus! {

/// The fields of a 32-bit machine word, as the execution engine reads them.
#[derive(Clone, Copy, PartialEq, Eq, Structural, Debug)]
pub struct DecodedInstruction {
    pub opcode: u8,
    pub rs: u8,
    pub rt: u8,
    pub rd: u8,
    pub funct: u8,
    pub immediate: u16,
    pub address: u32,
}

pub open spec fn spec_opcode(w: u32) -> u8 {
    ((w >> 26) & 0x3f) as u8
}

pub open spec fn spec_rs(w: u32) -> u8 {
    ((w >> 21) & 0x1f) as u8
}

pub open spec fn spec_rt(w: u32) -> u8 {
    ((w >> 16) & 0x1f) as u8
}

pub open spec fn spec_rd(w: u32) -> u8 {
    ((w >> 11) & 0x1f) as u8
}

pub open spec fn spec_shamt(w: u32) -> u8 {
    ((w >> 6) & 0x1f) as u8
}

pub open spec fn spec_funct(w: u32) -> u8 {
    (w & 0x3f) as u8
}

pub open spec fn spec_immediate(w: u32) -> u16 {
    (w & 0xffff) as u16
}

pub open spec fn spec_jump_address(w: u32) -> u32 {
    w & 0x3ff_ffff
}

/// All seven fields of a word at once.
pub open spec fn spec_decode(w: u32) -> DecodedInstruction {
    DecodedInstruction {
        opcode: spec_opcode(w),
        rs: spec_rs(w),
        rt: spec_rt(w),
        rd: spec_rd(w),
        funct: spec_funct(w),
        immediate: spec_immediate(w),
        address: spec_jump_address(w),
    }
}

/// R-type word: opcode 0, shift amount 0, the funct field picks the operation.
pub open spec fn spec_encode_r(rs: u8, rt: u8, rd: u8, funct: u8) -> u32 {
    ((rs as u32) << 21) | ((rt as u32) << 16) | ((rd as u32) << 11) | (funct as u32)
}

/// I-type word: opcode, two registers, 16-bit immediate stored verbatim.
pub open spec fn spec_encode_i(opcode: u8, rs: u8, rt: u8, immediate: u16) -> u32 {
    ((opcode as u32) << 26) | ((rs as u32) << 21) | ((rt as u32) << 16) | (immediate as u32)
}

/// J-type word: opcode 2 and a 26-bit word-index target.
pub open spec fn spec_encode_j(address: u32) -> u32 {
    (2u32 << 26) | (address & 0x3ff_ffff)
}

pub fn encode_r_type(rs: u8, rt: u8, rd: u8, funct: u8) -> (w: u32)
    requires
        rs < 32,
        rt < 32,
        rd < 32,
        funct < 64,
    ensures
        w == spec_encode_r(rs, rt, rd, funct),
{
    ((rs as u32) << 21u32) | ((rt as u32) << 16u32) | ((rd as u32) << 11u32) | (funct as u32)
}

pub fn encode_i_type(opcode: u8, rs: u8, rt: u8, immediate: u16) -> (w: u32)
    requires
        opcode < 64,
        rs < 32,
        rt < 32,
    ensures
        w == spec_encode_i(opcode, rs, rt, immediate),
{
    ((opcode as u32) << 26u32) | ((rs as u32) << 21u32) | ((rt as u32) << 16u32) | (
    immediate as u32)
}

pub fn encode_j_type(address: u32) -> (w: u32)
    ensures
        w == spec_encode_j(address),
{
    (2u32 << 26u32) | (address & 0x3ff_ffff)
}

/// Splits a machine word into its fields.
pub fn decode_word(w: u32) -> (d: DecodedInstruction)
    ensures
        d == spec_decode(w),
{
    proof {
        assert(((w >> 26) & 0x3f) < 256 && ((w >> 21) & 0x1f) < 256 && ((w >> 16) & 0x1f) < 256
            && ((w >> 11) & 0x1f) < 256 && (w & 0x3f) < 256 && (w & 0xffff) < 0x10000)
            by (bit_vector);
    }
    DecodedInstruction {
        opcode: ((w >> 26u32) & 0x3f) as u8,
        rs: ((w >> 21u32) & 0x1f) as u8,
        rt: ((w >> 16u32) & 0x1f) as u8,
        rd: ((w >> 11u32) & 0x1f) as u8,
        funct: (w & 0x3f) as u8,
        immediate: (w & 0xffff) as u16,
        address: w & 0x3ff_ffff,
    }
}

/// Every decoded field fits its bit width.
pub proof fn lemma_decode_field_bounds(w: u32)
    ensures
        spec_opcode(w) < 64,
        spec_rs(w) < 32,
        spec_rt(w) < 32,
        spec_rd(w) < 32,
        spec_shamt(w) < 32,
        spec_funct(w) < 64,
        spec_jump_address(w) < 0x400_0000,
{
    assert((((w >> 26) & 0x3f) as u8) < 64 && (((w >> 21) & 0x1f) as u8) < 32 && (((w >> 16)
        & 0x1f) as u8) < 32 && (((w >> 11) & 0x1f) as u8) < 32 && (((w >> 6) & 0x1f) as u8) < 32
        && ((w & 0x3f) as u8) < 64 && (w & 0x3ff_ffff) < 0x400_0000) by (bit_vector);
}

/// Decoding an R-type word recovers exactly the fields it was encoded from,
/// with opcode and shift amount both zero.
pub proof fn lemma_r_round_trip(rs: u8, rt: u8, rd: u8, funct: u8)
    requires
        rs < 32,
        rt < 32,
        rd < 32,
        funct < 64,
    ensures
        spec_opcode(spec_encode_r(rs, rt, rd, funct)) == 0,
        spec_rs(spec_encode_r(rs, rt, rd, funct)) == rs,
        spec_rt(spec_encode_r(rs, rt, rd, funct)) == rt,
        spec_rd(spec_encode_r(rs, rt, rd, funct)) == rd,
        spec_shamt(spec_encode_r(rs, rt, rd, funct)) == 0,
        spec_funct(spec_encode_r(rs, rt, rd, funct)) == funct,
{
    let w = spec_encode_r(rs, rt, rd, funct);
    assert(rs < 32 && rt < 32 && rd < 32 && funct < 64 && w == (((rs as u32) << 21) | ((
    rt as u32) << 16) | ((rd as u32) << 11) | (funct as u32)) ==> ((w >> 26) & 0x3f) == 0 && ((w
        >> 21) & 0x1f) == rs && ((w >> 16) & 0x1f) == rt && ((w >> 11) & 0x1f) == rd && ((w >> 6)
        & 0x1f) == 0 && (w & 0x3f) == funct) by (bit_vector);
}

/// Decoding an I-type word recovers exactly the fields it was encoded from.
pub proof fn lemma_i_round_trip(opcode: u8, rs: u8, rt: u8, immediate: u16)
    requires
        opcode < 64,
        rs < 32,
        rt < 32,
    ensures
        spec_opcode(spec_encode_i(opcode, rs, rt, immediate)) == opcode,
        spec_rs(spec_encode_i(opcode, rs, rt, immediate)) == rs,
        spec_rt(spec_encode_i(opcode, rs, rt, immediate)) == rt,
        spec_immediate(spec_encode_i(opcode, rs, rt, immediate)) == immediate,
{
    let w = spec_encode_i(opcode, rs, rt, immediate);
    assert(opcode < 64 && rs < 32 && rt < 32 && w == (((opcode as u32) << 26) | ((rs as u32) << 21)
        | ((rt as u32) << 16) | (immediate as u32)) ==> ((w >> 26) & 0x3f) == opcode && ((w >> 21)
        & 0x1f) == rs && ((w >> 16) & 0x1f) == rt && (w & 0xffff) == immediate) by (bit_vector);
}

/// Decoding a J-type word recovers the 26-bit target it was encoded from.
pub proof fn lemma_j_round_trip(address: u32)
    requires
        address < 0x400_0000,
    ensures
        spec_opcode(spec_encode_j(address)) == 2,
        spec_jump_address(spec_encode_j(address)) == address,
{
    let w = spec_encode_j(address);
    assert(address < 0x400_0000 && w == ((2u32 << 26) | (address & 0x3ff_ffff)) ==> ((w >> 26)
        & 0x3f) == 2 && (w & 0x3ff_ffff) == address) by (bit_vector);
}

/// Re-encoding the fields of an R-type word (opcode 0, shift amount 0)
/// rebuilds that word bit for bit.
pub proof fn lemma_r_rebuild(w: u32)
    requires
        spec_opcode(w) == 0,
        spec_shamt(w) == 0,
    ensures
        spec_encode_r(spec_rs(w), spec_rt(w), spec_rd(w), spec_funct(w)) == w,
{
    assert((((w >> 26) & 0x3f) as u8) == 0 && (((w >> 6) & 0x1f) as u8) == 0 ==> (((((w >> 21)
        & 0x1f) as u8)
        as u32) << 21) | (((((w >> 16) & 0x1f) as u8) as u32) << 16) | (((((w >> 11) & 0x1f) as u8)
        as u32) << 11) | (((w & 0x3f) as u8) as u32) == w) by (bit_vector);
}

/// Re-encoding the fields of any word as an I-type word rebuilds that word
/// bit for bit: the four I-type fields partition all 32 bits.
pub proof fn lemma_i_rebuild(w: u32)
    ensures
        spec_encode_i(spec_opcode(w), spec_rs(w), spec_rt(w), spec_immediate(w)) == w,
{
    assert((((((w >> 26) & 0x3f) as u8) as u32) << 26) | (((((w >> 21) & 0x1f) as u8) as u32) << 21)
        | (((((w >> 16) & 0x1f) as u8) as u32) << 16) | (((w & 0xffff) as u16) as u32) == w)
        by (bit_vector);
}

/// Re-encoding the 26-bit target of a J-type word (opcode 2) rebuilds that
/// word bit for bit.
pub proof fn lemma_j_rebuild(w: u32)
    requires
        spec_opcode(w) == 2,
    ensures
        spec_encode_j(spec_jump_address(w)) == w,
{
    assert((((w >> 26) & 0x3f) as u8) == 2 ==> (2u32 << 26) | ((w & 0x3ff_ffff) & 0x3ff_ffff) == w)
        by (bit_vector);
}

} // verus!
