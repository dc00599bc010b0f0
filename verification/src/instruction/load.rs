//! LOAD: loads from memory into a register.
use crate::engine::{Engine, Outcome, State};
use crate::error::EmbiveError;
use crate::instruction::alu::{signed, sum, to_signed, to_unsigned, unsigned, wrap};
use crate::instruction::format::{twos_complement, TypeI};
use crate::instruction::{pc_offset, retire, trap, INSTRUCTION_SIZE};
use crate::memory::{half_from_bytes, half_of, word_from_bytes, word_of, Memory};
use crate::register::get_spec;
use vstd::prelude::*;

verus! {

/// A load: `rd` receives the value at address `rs1 + imm`, where the
/// function code selects the width and whether the value is sign-extended.
pub struct Load {
    /// The decoded fields.
    pub ty: TypeI,
}

impl Load {
    /// The instruction that the word `data` encodes.
    pub open spec fn decode_spec(data: u32) -> Load {
        Load { ty: TypeI::decode_spec(data) }
    }

    /// Decodes the word `data`.
    #[inline(always)]
    pub fn decode(data: u32) -> (inst: Self)
        ensures
            inst == Self::decode_spec(data),
    {
        Self { ty: TypeI::decode(data) }
    }

    /// The number of bytes that the load selected by `funct3` reads, or
    /// `None` where `funct3` selects no load: 1 for LB and LBU, 2 for LH and
    /// LHU, 4 for LW.
    pub open spec fn width_spec(funct3: u8) -> Option<nat> {
        if funct3 == 0 || funct3 == 4 {
            Some(1)
        } else if funct3 == 1 || funct3 == 5 {
            Some(2)
        } else if funct3 == 2 {
            Some(4)
        } else {
            None
        }
    }

    /// The register value that the load selected by `funct3` makes of the
    /// bytes it read: LB and LH read them as a signed number, LBU and LHU as
    /// an unsigned one, LW takes all 32 bits.
    pub open spec fn value_spec(funct3: u8, bytes: Seq<u8>) -> i32 {
        if funct3 == 0 {
            twos_complement(bytes[0] as int, 0x100) as i32
        } else if funct3 == 1 {
            twos_complement(half_of(bytes) as int, 0x1_0000) as i32
        } else if funct3 == 2 {
            signed(word_of(bytes))
        } else if funct3 == 4 {
            bytes[0] as i32
        } else {
            half_of(bytes) as i32
        }
    }

    /// The address that the instruction accesses when `rs1` holds `base`.
    pub open spec fn address_spec(&self, base: i32) -> u32 {
        unsigned(wrap(base + self.ty.imm))
    }

    /// What the instruction does to `pre`. It reads `rs1`, loads from
    /// memory, and writes `rd`; then execution goes on after it. It traps
    /// with `InvalidRegister` where a register index is 32 or more, with
    /// `InvalidInstruction` where the function code selects no load, and
    /// with `InvalidMemory` where the memory refuses the access.
    ///
    /// The definition is opaque; `reveal(Load::execute_spec)` opens it.
    #[verifier::opaque]
    pub open spec fn execute_spec<M: Memory>(&self, pre: State<M::V>) -> Outcome<M::V> {
        match get_spec(pre.regs, self.ty.rs1) {
            Err(e) => trap(pre, e),
            Ok(base) => match Self::width_spec(self.ty.funct3) {
                None => trap(pre, EmbiveError::InvalidInstruction),
                Some(width) => match M::load_spec(pre.memory, self.address_spec(base), width) {
                    None => trap(pre, EmbiveError::InvalidMemory),
                    Some(bytes) => retire(
                        pre,
                        self.ty.rd,
                        Self::value_spec(self.ty.funct3, bytes),
                        pc_offset(pre.pc, INSTRUCTION_SIZE as int),
                    ),
                },
            },
        }
    }

    /// Executes the instruction on `engine`.
    #[inline(always)]
    pub fn execute<M: Memory, F>(&self, engine: &mut Engine<'_, M, F>) -> (r: Result<
        bool,
        EmbiveError,
    >)
        ensures
            old(engine).becomes(*final(engine), r, self.execute_spec::<M>(old(engine)@)),
    {
        proof {
            reveal(Load::execute_spec);
        }
        let base: i32 = engine.registers.get(self.ty.rs1)?;
        let address: u32 = to_unsigned(sum(base, self.ty.imm));
        let value: i32 = match self.ty.funct3 {
            0 => {
                let bytes: [u8; 1] = engine.memory.load::<1>(address)?;
                sign_extend_byte(bytes[0])
            },
            1 => {
                let bytes: [u8; 2] = engine.memory.load::<2>(address)?;
                sign_extend_half(half_from_bytes(bytes))
            },
            2 => {
                let bytes: [u8; 4] = engine.memory.load::<4>(address)?;
                to_signed(word_from_bytes(bytes))
            },
            4 => {
                let bytes: [u8; 1] = engine.memory.load::<1>(address)?;
                bytes[0] as i32
            },
            5 => {
                let bytes: [u8; 2] = engine.memory.load::<2>(address)?;
                half_from_bytes(bytes) as i32
            },
            _ => return Err(EmbiveError::InvalidInstruction),
        };
        if self.ty.rd != 0 {
            let reg = engine.registers.get_mut(self.ty.rd)?;
            *reg = value;
        }
        engine.program_counter = engine.program_counter.wrapping_add(INSTRUCTION_SIZE);
        Ok(true)
    }
}

/// A byte as a signed number, widened to a register value.
fn sign_extend_byte(byte: u8) -> (r: i32)
    ensures
        r == twos_complement(byte as int, 0x100),
{
    let narrow: i8 = #[verifier::truncate] (byte as i8);
    assert(narrow == twos_complement(byte as int, 0x100)) by (bit_vector)
        requires
            narrow == byte as i8,
    ;
    narrow as i32
}

/// A 16-bit number as a signed number, widened to a register value.
fn sign_extend_half(half: u16) -> (r: i32)
    ensures
        r == twos_complement(half as int, 0x1_0000),
{
    let narrow: i16 = #[verifier::truncate] (half as i16);
    assert(narrow == twos_complement(half as int, 0x1_0000)) by (bit_vector)
        requires
            narrow == half as i16,
    ;
    narrow as i32
}

} // verus!
