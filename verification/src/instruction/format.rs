//! The field layouts of a 32-bit instruction word.
//!
//! Each layout is a plain value that `decode` makes of the word. The fields
//! are defined arithmetically, as the number that the bits of the field
//! spell, and the immediates as the two's complement value of their bits.
use vstd::prelude::*;

verus! {

/// Bits 6 to 0 of the word: the opcode.
pub open spec fn opcode_of(inst: u32) -> u8 {
    (inst % 0x80) as u8
}

/// Bits 11 to 7: the destination register.
pub open spec fn rd_of(inst: u32) -> usize {
    ((inst / 0x80) % 32) as usize
}

/// Bits 14 to 12: the minor function code.
pub open spec fn funct3_of(inst: u32) -> u8 {
    ((inst / 0x1000) % 8) as u8
}

/// Bits 19 to 15: the first source register.
pub open spec fn rs1_of(inst: u32) -> usize {
    ((inst / 0x8000) % 32) as usize
}

/// Bits 24 to 20: the second source register.
pub open spec fn rs2_of(inst: u32) -> usize {
    ((inst / 0x10_0000) % 32) as usize
}

/// Bits 31 to 25: the major function code.
pub open spec fn funct7_of(inst: u32) -> u8 {
    (inst / 0x200_0000) as u8
}

/// The value of `bits` read as a two's complement number of `width` bits,
/// where `modulus` is 2 to the power `width`.
pub open spec fn twos_complement(bits: int, modulus: int) -> int {
    if 2 * bits >= modulus {
        bits - modulus
    } else {
        bits
    }
}

/// The immediate of an I-type word: bits 31 to 20 as a signed 12-bit number.
pub open spec fn imm_i_of(inst: u32) -> i32 {
    twos_complement(inst as int / 0x10_0000, 0x1000) as i32
}

/// The immediate of an S-type word: bits 31 to 25 above bits 11 to 7, as a
/// signed 12-bit number.
pub open spec fn imm_s_of(inst: u32) -> i32 {
    twos_complement((inst as int / 0x200_0000) * 32 + (inst as int / 0x80) % 32, 0x1000) as i32
}

/// The immediate of a B-type word: bit 31, bit 7, bits 30 to 25, bits 11 to 8
/// and a zero, from the top down, as a signed 13-bit number.
pub open spec fn imm_b_of(inst: u32) -> i32 {
    twos_complement(
        (inst as int / 0x8000_0000) * 0x1000 + ((inst as int / 0x80) % 2) * 0x800 + ((inst as int
            / 0x200_0000) % 64) * 32 + ((inst as int / 0x100) % 16) * 2,
        0x2000,
    ) as i32
}

/// The immediate of a U-type word: bits 31 to 12 above twelve zeros, as a
/// signed 32-bit number.
pub open spec fn imm_u_of(inst: u32) -> i32 {
    twos_complement((inst as int / 0x1000) * 0x1000, 0x1_0000_0000) as i32
}

/// The immediate of a J-type word: bit 31, bits 19 to 12, bit 20, bits 30 to
/// 21 and a zero, from the top down, as a signed 21-bit number.
pub open spec fn imm_j_of(inst: u32) -> i32 {
    twos_complement(
        (inst as int / 0x8000_0000) * 0x10_0000 + ((inst as int / 0x1000) % 256) * 0x1000 + ((
        inst as int / 0x10_0000) % 2) * 0x800 + ((inst as int / 0x20_0000) % 1024) * 2,
        0x20_0000,
    ) as i32
}

proof fn lemma_fields(inst: u32)
    by (bit_vector)
    ensures
        inst & 0x7f == inst % 0x80,
        (inst >> 7) & 0x1f == (inst / 0x80) % 32,
        (inst >> 12) & 0x7 == (inst / 0x1000) % 8,
        (inst >> 15) & 0x1f == (inst / 0x8000) % 32,
        (inst >> 20) & 0x1f == (inst / 0x10_0000) % 32,
        inst >> 25 == inst / 0x200_0000,
{
}

fn rd(inst: u32) -> (r: usize)
    ensures
        r == rd_of(inst),
        r < 32,
{
    proof {
        lemma_fields(inst);
    }
    ((inst >> 7) & 0x1f) as usize
}

fn funct3(inst: u32) -> (r: u8)
    ensures
        r == funct3_of(inst),
        r < 8,
{
    proof {
        lemma_fields(inst);
    }
    ((inst >> 12) & 0x7) as u8
}

fn rs1(inst: u32) -> (r: usize)
    ensures
        r == rs1_of(inst),
        r < 32,
{
    proof {
        lemma_fields(inst);
    }
    ((inst >> 15) & 0x1f) as usize
}

fn rs2(inst: u32) -> (r: usize)
    ensures
        r == rs2_of(inst),
        r < 32,
{
    proof {
        lemma_fields(inst);
    }
    ((inst >> 20) & 0x1f) as usize
}

fn funct7(inst: u32) -> (r: u8)
    ensures
        r == funct7_of(inst),
        r < 128,
{
    proof {
        lemma_fields(inst);
    }
    (inst >> 25) as u8
}

/// The opcode of an instruction word.
pub fn opcode(inst: u32) -> (r: u8)
    ensures
        r == opcode_of(inst),
        r < 128,
{
    proof {
        lemma_fields(inst);
    }
    (inst & 0x7f) as u8
}

fn imm_i(inst: u32) -> (r: i32)
    ensures
        r == imm_i_of(inst),
{
    let s: i32 = #[verifier::truncate] (inst as i32);
    let r: i32 = s >> 20;
    assert(r == twos_complement(inst as int / 0x10_0000, 0x1000)) by (bit_vector)
        requires
            s == inst as i32,
            r == s >> 20,
    ;
    r
}

fn imm_s(inst: u32) -> (r: i32)
    ensures
        r == imm_s_of(inst),
{
    let s: i32 = #[verifier::truncate] ((inst & 0xFE00_0000) as i32);
    let low: i32 = ((inst >> 7) & 0x1f) as i32;
    let r: i32 = (s >> 20) | low;
    assert(r == twos_complement(
        (inst as int / 0x200_0000) * 32 + (inst as int / 0x80) % 32,
        0x1000,
    )) by (bit_vector)
        requires
            s == (inst & 0xFE00_0000) as i32,
            low == ((inst >> 7) & 0x1f) as i32,
            r == (s >> 20) | low,
    ;
    r
}

fn imm_b(inst: u32) -> (r: i32)
    ensures
        r == imm_b_of(inst),
{
    let s: i32 = #[verifier::truncate] ((inst & 0x8000_0000) as i32);
    let low: i32 = (((inst << 4) & 0x800) | ((inst >> 20) & 0x7e0) | ((inst >> 7) & 0x1e)) as i32;
    let r: i32 = (s >> 19) | low;
    assert(r == twos_complement(
        (inst as int / 0x8000_0000) * 0x1000 + ((inst as int / 0x80) % 2) * 0x800 + ((inst as int
            / 0x200_0000) % 64) * 32 + ((inst as int / 0x100) % 16) * 2,
        0x2000,
    )) by (bit_vector)
        requires
            s == (inst & 0x8000_0000) as i32,
            low == (((inst << 4) & 0x800) | ((inst >> 20) & 0x7e0) | ((inst >> 7) & 0x1e)) as i32,
            r == (s >> 19) | low,
    ;
    r
}

fn imm_u(inst: u32) -> (r: i32)
    ensures
        r == imm_u_of(inst),
{
    let r: i32 = #[verifier::truncate] ((inst & 0xFFFF_F000) as i32);
    assert(r == twos_complement((inst as int / 0x1000) * 0x1000, 0x1_0000_0000)) by (bit_vector)
        requires
            r == (inst & 0xFFFF_F000) as i32,
    ;
    r
}

fn imm_j(inst: u32) -> (r: i32)
    ensures
        r == imm_j_of(inst),
{
    let s: i32 = #[verifier::truncate] ((inst & 0x8000_0000) as i32);
    let low: i32 = ((inst & 0xF_F000) | ((inst >> 9) & 0x800) | ((inst >> 20) & 0x7fe)) as i32;
    let r: i32 = (s >> 11) | low;
    assert(r == twos_complement(
        (inst as int / 0x8000_0000) * 0x10_0000 + ((inst as int / 0x1000) % 256) * 0x1000 + ((
        inst as int / 0x10_0000) % 2) * 0x800 + ((inst as int / 0x20_0000) % 1024) * 2,
        0x20_0000,
    )) by (bit_vector)
        requires
            s == (inst & 0x8000_0000) as i32,
            low == ((inst & 0xF_F000) | ((inst >> 9) & 0x800) | ((inst >> 20) & 0x7fe)) as i32,
            r == (s >> 11) | low,
    ;
    r
}

/// Register-register layout: `rd`, `rs1`, `rs2` and both function codes.
#[derive(Debug, PartialEq, Eq, Clone, Copy, Structural)]
pub struct TypeR {
    /// Destination register.
    pub rd: usize,
    /// First source register.
    pub rs1: usize,
    /// Second source register.
    pub rs2: usize,
    /// Minor function code.
    pub funct3: u8,
    /// Major function code.
    pub funct7: u8,
}

impl TypeR {
    /// The fields that the word `inst` spells.
    pub open spec fn decode_spec(inst: u32) -> Self {
        TypeR {
            rd: rd_of(inst),
            rs1: rs1_of(inst),
            rs2: rs2_of(inst),
            funct3: funct3_of(inst),
            funct7: funct7_of(inst),
        }
    }

    /// Takes the word `inst` apart.
    pub fn decode(inst: u32) -> (r: Self)
        ensures
            r == Self::decode_spec(inst),
    {
        TypeR {
            rd: rd(inst),
            rs1: rs1(inst),
            rs2: rs2(inst),
            funct3: funct3(inst),
            funct7: funct7(inst),
        }
    }
}

/// Register-immediate layout: `rd`, `rs1`, the function code and a signed
/// 12-bit immediate.
#[derive(Debug, PartialEq, Eq, Clone, Copy, Structural)]
pub struct TypeI {
    /// Destination register.
    pub rd: usize,
    /// Source register.
    pub rs1: usize,
    /// Sign-extended immediate.
    pub imm: i32,
    /// Minor function code.
    pub funct3: u8,
}

impl TypeI {
    /// The fields that the word `inst` spells.
    pub open spec fn decode_spec(inst: u32) -> Self {
        TypeI {
            rd: rd_of(inst),
            rs1: rs1_of(inst),
            imm: imm_i_of(inst),
            funct3: funct3_of(inst),
        }
    }

    /// Takes the word `inst` apart.
    pub fn decode(inst: u32) -> (r: Self)
        ensures
            r == Self::decode_spec(inst),
    {
        TypeI {
            rd: rd(inst),
            rs1: rs1(inst),
            imm: imm_i(inst),
            funct3: funct3(inst),
        }
    }
}

/// Store layout: `rs1`, `rs2`, the function code and a signed 12-bit
/// immediate.
#[derive(Debug, PartialEq, Eq, Clone, Copy, Structural)]
pub struct TypeS {
    /// Base address register.
    pub rs1: usize,
    /// Register holding the value to store.
    pub rs2: usize,
    /// Sign-extended immediate.
    pub imm: i32,
    /// Minor function code.
    pub funct3: u8,
}

impl TypeS {
    /// The fields that the word `inst` spells.
    pub open spec fn decode_spec(inst: u32) -> Self {
        TypeS {
            rs1: rs1_of(inst),
            rs2: rs2_of(inst),
            imm: imm_s_of(inst),
            funct3: funct3_of(inst),
        }
    }

    /// Takes the word `inst` apart.
    pub fn decode(inst: u32) -> (r: Self)
        ensures
            r == Self::decode_spec(inst),
    {
        TypeS {
            rs1: rs1(inst),
            rs2: rs2(inst),
            imm: imm_s(inst),
            funct3: funct3(inst),
        }
    }
}

/// Branch layout: `rs1`, `rs2`, the function code and a signed 13-bit
/// immediate, which is always even.
#[derive(Debug, PartialEq, Eq, Clone, Copy, Structural)]
pub struct TypeB {
    /// First register to compare.
    pub rs1: usize,
    /// Second register to compare.
    pub rs2: usize,
    /// Sign-extended branch offset.
    pub imm: i32,
    /// Minor function code.
    pub funct3: u8,
}

impl TypeB {
    /// The fields that the word `inst` spells.
    pub open spec fn decode_spec(inst: u32) -> Self {
        TypeB {
            rs1: rs1_of(inst),
            rs2: rs2_of(inst),
            imm: imm_b_of(inst),
            funct3: funct3_of(inst),
        }
    }

    /// Takes the word `inst` apart.
    pub fn decode(inst: u32) -> (r: Self)
        ensures
            r == Self::decode_spec(inst),
            r.imm % 2 == 0,
    {
        proof {
            lemma_branch_offset_even(inst);
        }
        TypeB {
            rs1: rs1(inst),
            rs2: rs2(inst),
            imm: imm_b(inst),
            funct3: funct3(inst),
        }
    }
}

/// Upper-immediate layout: `rd` and the upper 20 bits of the word.
#[derive(Debug, PartialEq, Eq, Clone, Copy, Structural)]
pub struct TypeU {
    /// Destination register.
    pub rd: usize,
    /// Bits 31 to 12 of the word above twelve zeros, as a signed number.
    pub imm: i32,
}

impl TypeU {
    /// The fields that the word `inst` spells.
    pub open spec fn decode_spec(inst: u32) -> Self {
        TypeU {
            rd: rd_of(inst),
            imm: imm_u_of(inst),
        }
    }

    /// Takes the word `inst` apart.
    pub fn decode(inst: u32) -> (r: Self)
        ensures
            r == Self::decode_spec(inst),
    {
        TypeU {
            rd: rd(inst),
            imm: imm_u(inst),
        }
    }
}

/// Jump layout: `rd` and a signed 21-bit immediate, which is always even.
#[derive(Debug, PartialEq, Eq, Clone, Copy, Structural)]
pub struct TypeJ {
    /// Destination register.
    pub rd: usize,
    /// Sign-extended jump offset.
    pub imm: i32,
}

impl TypeJ {
    /// The fields that the word `inst` spells.
    pub open spec fn decode_spec(inst: u32) -> Self {
        TypeJ {
            rd: rd_of(inst),
            imm: imm_j_of(inst),
        }
    }

    /// Takes the word `inst` apart.
    pub fn decode(inst: u32) -> (r: Self)
        ensures
            r == Self::decode_spec(inst),
            r.imm % 2 == 0,
    {
        proof {
            lemma_jump_offset_even(inst);
        }
        TypeJ {
            rd: rd(inst),
            imm: imm_j(inst),
        }
    }
}

/// Every register index that decoding produces names one of the 32
/// registers.
pub proof fn lemma_register_fields_in_range(inst: u32)
    ensures
        rd_of(inst) < 32,
        rs1_of(inst) < 32,
        rs2_of(inst) < 32,
{
}

/// The offset of a decoded branch is a multiple of two, whatever the word.
pub proof fn lemma_branch_offset_even(inst: u32)
    ensures
        imm_b_of(inst) % 2 == 0,
        -0x1000 <= imm_b_of(inst) < 0x1000,
{
}

/// The offset of a decoded jump is a multiple of two, whatever the word.
pub proof fn lemma_jump_offset_even(inst: u32)
    ensures
        imm_j_of(inst) % 2 == 0,
        -0x10_0000 <= imm_j_of(inst) < 0x10_0000,
{
}

/// The immediate of a decoded U-type word is the word with its low 12 bits
/// masked away, reinterpreted as a signed 32-bit number.
pub proof fn lemma_upper_immediate(inst: u32)
    ensures
        imm_u_of(inst) == (inst & 0xFFFF_F000) as i32,
{
    assert((inst & 0xFFFF_F000) as i32 == twos_complement(
        (inst as int / 0x1000) * 0x1000,
        0x1_0000_0000,
    )) by (bit_vector);
}

} // verus!
