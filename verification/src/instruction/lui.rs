//! LUI: load upper immediate.
use crate::engine::{Engine, Outcome, State};
use crate::error::EmbiveError;
use crate::instruction::format::TypeU;
use crate::instruction::{pc_offset, retire, INSTRUCTION_SIZE};
use crate::memory::Memory;
use vstd::prelude::*;

verus! {

/// Load upper immediate: `rd = imm`.
pub struct Lui {
    /// The decoded fields.
    pub ty: TypeU,
}

impl Lui {
    /// The instruction that the word `data` encodes.
    pub open spec fn decode_spec(data: u32) -> Lui {
        Lui { ty: TypeU::decode_spec(data) }
    }

    /// Decodes the word `data`.
    #[inline(always)]
    pub fn decode(data: u32) -> (inst: Self)
        ensures
            inst == Self::decode_spec(data),
    {
        Self { ty: TypeU::decode(data) }
    }

    /// What the instruction does to `pre`: `rd` receives the immediate, and
    /// execution goes on after it.
    ///
    /// The definition is opaque; `reveal(Lui::execute_spec)` opens it.
    #[verifier::opaque]
    pub open spec fn execute_spec<V>(&self, pre: State<V>) -> Outcome<V> {
        retire(pre, self.ty.rd, self.ty.imm, pc_offset(pre.pc, INSTRUCTION_SIZE as int))
    }

    /// Executes the instruction on `engine`.
    #[inline(always)]
    pub fn execute<M: Memory, F>(&self, engine: &mut Engine<'_, M, F>) -> (r: Result<
        bool,
        EmbiveError,
    >)
        ensures
            old(engine).becomes(*final(engine), r, self.execute_spec(old(engine)@)),
    {
        proof {
            reveal(Lui::execute_spec);
        }
        if self.ty.rd != 0 {
            let reg = engine.registers.get_mut(self.ty.rd)?;
            *reg = self.ty.imm;
        }
        engine.program_counter = engine.program_counter.wrapping_add(INSTRUCTION_SIZE);
        Ok(true)
    }
}

} // verus!
