//! AUIPC: add upper immediate to the program counter.
use crate::engine::{Engine, Outcome, State};
use crate::error::EmbiveError;
use crate::instruction::alu::{signed, to_signed};
use crate::instruction::format::TypeU;
use crate::instruction::{pc_offset, retire, INSTRUCTION_SIZE};
use crate::memory::Memory;
use vstd::prelude::*;

verus! {

/// Add upper immediate to program counter: `rd = pc + imm`.
pub struct Auipc {
    /// The decoded fields.
    pub ty: TypeU,
}

impl Auipc {
    /// The instruction that the word `data` encodes.
    pub open spec fn decode_spec(data: u32) -> Auipc {
        Auipc { ty: TypeU::decode_spec(data) }
    }

    /// Decodes the word `data`.
    #[inline(always)]
    pub fn decode(data: u32) -> (inst: Self)
        ensures
            inst == Self::decode_spec(data),
    {
        Self { ty: TypeU::decode(data) }
    }

    /// What the instruction does to `pre`: `rd` receives the address of the
    /// instruction plus the immediate, and execution goes on after it.
    ///
    /// The definition is opaque; `reveal(Auipc::execute_spec)` opens it.
    #[verifier::opaque]
    pub open spec fn execute_spec<V>(&self, pre: State<V>) -> Outcome<V> {
        retire(
            pre,
            self.ty.rd,
            signed(pc_offset(pre.pc, self.ty.imm as int)),
            pc_offset(pre.pc, INSTRUCTION_SIZE as int),
        )
    }

    /// Executes the instruction on `engine`.
    #[inline(always)]
    pub fn execute<M: Memory, F>(&self, engine: &mut Engine<'_, M, F>) -> (r: Result<
        bool,
        EmbiveError,
    >)
        ensures
            old(engine).becomes(*final(engine), r, self.execute_spec(old(engine)@)),
    {
        proof {
            reveal(Auipc::execute_spec);
        }
        if self.ty.rd != 0 {
            let value: i32 = to_signed(engine.program_counter.wrapping_add_signed(self.ty.imm));
            let reg = engine.registers.get_mut(self.ty.rd)?;
            *reg = value;
        }
        engine.program_counter = engine.program_counter.wrapping_add(INSTRUCTION_SIZE);
        Ok(true)
    }
}

/// With an immediate of zero the instruction writes the program counter
/// itself into `rd`.
pub proof fn lemma_auipc_zero_reads_pc<V>(rd: usize, pre: State<V>)
    requires
        0 < rd < 32,
        pre.regs.len() == 32,
    ensures
        (Auipc { ty: TypeU { rd, imm: 0 } }).execute_spec(pre).state.regs[rd as int] == signed(
            pre.pc,
        ),
        (Auipc { ty: TypeU { rd, imm: 0 } }).execute_spec(pre).result == Ok::<bool, EmbiveError>(
            true,
        ),
{
    reveal(Auipc::execute_spec);
}

} // verus!
