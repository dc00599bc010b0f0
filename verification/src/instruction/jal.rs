//! JAL: jump and link.
use crate::engine::{Engine, Outcome, State};
use crate::error::EmbiveError;
use crate::instruction::alu::{signed, to_signed};
use crate::instruction::format::TypeJ;
use crate::instruction::{pc_offset, retire, INSTRUCTION_SIZE};
use crate::memory::Memory;
use vstd::prelude::*;

verus! {

/// Jump and link: `rd = pc + 4`, then go on at `pc + imm`.
pub struct Jal {
    /// The decoded fields.
    pub ty: TypeJ,
}

impl Jal {
    /// The instruction that the word `data` encodes.
    pub open spec fn decode_spec(data: u32) -> Jal {
        Jal { ty: TypeJ::decode_spec(data) }
    }

    /// Decodes the word `data`.
    #[inline(always)]
    pub fn decode(data: u32) -> (inst: Self)
        ensures
            inst == Self::decode_spec(data),
            inst.ty.imm % 2 == 0,
    {
        Self { ty: TypeJ::decode(data) }
    }

    /// What the instruction does to `pre`: `rd` receives the address of the
    /// next instruction, and execution goes on at the address of this one
    /// plus the immediate.
    ///
    /// The definition is opaque; `reveal(Jal::execute_spec)` opens it.
    #[verifier::opaque]
    pub open spec fn execute_spec<V>(&self, pre: State<V>) -> Outcome<V> {
        retire(
            pre,
            self.ty.rd,
            signed(pc_offset(pre.pc, INSTRUCTION_SIZE as int)),
            pc_offset(pre.pc, self.ty.imm as int),
        )
    }

    /// Executes the instruction on `engine`.
    #[inline(always)]
    pub fn execute<M: Memory, F>(&self, engine: &mut Engine<'_, M, F>) -> (r: Result<
        bool,
        EmbiveError,
    >)
        ensures
            old(engine).becomes(*final(engine), r, self.execute_spec(old(engine)@)),
    {
        proof {
            reveal(Jal::execute_spec);
        }
        if self.ty.rd != 0 {
            let link: i32 = to_signed(engine.program_counter.wrapping_add(INSTRUCTION_SIZE));
            let reg = engine.registers.get_mut(self.ty.rd)?;
            *reg = link;
        }
        engine.program_counter = engine.program_counter.wrapping_add_signed(self.ty.imm);
        Ok(true)
    }
}

} // verus!
