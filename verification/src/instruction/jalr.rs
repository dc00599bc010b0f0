//! JALR: jump and link register.
use crate::engine::{Engine, Outcome, State};
use crate::error::EmbiveError;
use crate::instruction::alu::{signed, sum, to_signed, to_unsigned, unsigned, wrap};
use crate::instruction::format::TypeI;
use crate::instruction::{pc_offset, retire, trap, INSTRUCTION_SIZE};
use crate::memory::Memory;
use crate::register::get_spec;
use vstd::prelude::*;

verus! {

/// Jump and link register: `rd = pc + 4`, then go on at `rs1 + imm` with
/// the lowest bit cleared.
pub struct Jalr {
    /// The decoded fields.
    pub ty: TypeI,
}

impl Jalr {
    /// The instruction that the word `data` encodes.
    pub open spec fn decode_spec(data: u32) -> Jalr {
        Jalr { ty: TypeI::decode_spec(data) }
    }

    /// Decodes the word `data`.
    #[inline(always)]
    pub fn decode(data: u32) -> (inst: Self)
        ensures
            inst == Self::decode_spec(data),
    {
        Self { ty: TypeI::decode(data) }
    }

    /// The address of the jump when `rs1` holds `base`: the sum of `base`
    /// and the immediate, made even by clearing its lowest bit.
    pub open spec fn target_spec(&self, base: i32) -> u32 {
        (unsigned(wrap(base + self.ty.imm)) - unsigned(wrap(base + self.ty.imm)) % 2) as u32
    }

    /// What the instruction does to `pre`. It reads `rs1`, writes the
    /// address of the next instruction to `rd` and goes on at the target.
    /// It traps with `InvalidInstruction` where the function code is not 0,
    /// and with `InvalidRegister` where a register index is 32 or more.
    ///
    /// The definition is opaque; `reveal(Jalr::execute_spec)` opens it.
    #[verifier::opaque]
    pub open spec fn execute_spec<V>(&self, pre: State<V>) -> Outcome<V> {
        if self.ty.funct3 != 0 {
            trap(pre, EmbiveError::InvalidInstruction)
        } else {
            match get_spec(pre.regs, self.ty.rs1) {
                Err(e) => trap(pre, e),
                Ok(base) => retire(
                    pre,
                    self.ty.rd,
                    signed(pc_offset(pre.pc, INSTRUCTION_SIZE as int)),
                    self.target_spec(base),
                ),
            }
        }
    }

    /// Executes the instruction on `engine`.
    #[inline(always)]
    pub fn execute<M: Memory, F>(&self, engine: &mut Engine<'_, M, F>) -> (r: Result<
        bool,
        EmbiveError,
    >)
        ensures
            old(engine).becomes(*final(engine), r, self.execute_spec(old(engine)@)),
    {
        proof {
            reveal(Jalr::execute_spec);
        }
        if self.ty.funct3 != 0 {
            return Err(EmbiveError::InvalidInstruction);
        }
        let base: i32 = engine.registers.get(self.ty.rs1)?;
        let sum: u32 = to_unsigned(sum(base, self.ty.imm));
        let target: u32 = sum & 0xFFFF_FFFE;
        assert(target == sum - sum % 2) by (bit_vector)
            requires
                target == sum & 0xFFFF_FFFE,
        ;
        if self.ty.rd != 0 {
            let link: i32 = to_signed(engine.program_counter.wrapping_add(INSTRUCTION_SIZE));
            let reg = engine.registers.get_mut(self.ty.rd)?;
            *reg = link;
        }
        engine.program_counter = target;
        Ok(true)
    }
}

} // verus!
