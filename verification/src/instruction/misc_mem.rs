//! MISC-MEM: the memory ordering instructions.
use crate::engine::{Engine, Outcome, State};
use crate::error::EmbiveError;
use crate::instruction::format::TypeI;
use crate::instruction::{pc_offset, trap, INSTRUCTION_SIZE};
use crate::memory::Memory;
use vstd::prelude::*;

verus! {

/// FENCE and FENCE.I. With one hart that executes in program order there is
/// nothing to order: both do nothing.
pub struct MiscMem {
    /// The decoded fields.
    pub ty: TypeI,
}

impl MiscMem {
    /// The instruction that the word `data` encodes.
    pub open spec fn decode_spec(data: u32) -> MiscMem {
        MiscMem { ty: TypeI::decode_spec(data) }
    }

    /// Decodes the word `data`.
    #[inline(always)]
    pub fn decode(data: u32) -> (inst: Self)
        ensures
            inst == Self::decode_spec(data),
    {
        Self { ty: TypeI::decode(data) }
    }

    /// What the instruction does to `pre`: with function code 0 (FENCE) or
    /// 1 (FENCE.I) execution goes on after it and nothing else changes; with
    /// any other it traps with `InvalidInstruction`.
    ///
    /// The definition is opaque; `reveal(MiscMem::execute_spec)` opens it.
    #[verifier::opaque]
    pub open spec fn execute_spec<V>(&self, pre: State<V>) -> Outcome<V> {
        if self.ty.funct3 == 0 || self.ty.funct3 == 1 {
            Outcome {
                state: State {
                    pc: pc_offset(pre.pc, INSTRUCTION_SIZE as int),
                    regs: pre.regs,
                    memory: pre.memory,
                },
                result: Ok(true),
            }
        } else {
            trap(pre, EmbiveError::InvalidInstruction)
        }
    }

    /// Executes the instruction on `engine`.
    #[inline(always)]
    pub fn execute<M: Memory, F>(&self, engine: &mut Engine<'_, M, F>) -> (r: Result<
        bool,
        EmbiveError,
    >)
        ensures
            old(engine).becomes(*final(engine), r, self.execute_spec(old(engine)@)),
    {
        proof {
            reveal(MiscMem::execute_spec);
        }
        if self.ty.funct3 > 1 {
            return Err(EmbiveError::InvalidInstruction);
        }
        engine.program_counter = engine.program_counter.wrapping_add(INSTRUCTION_SIZE);
        Ok(true)
    }
}

} // verus!
