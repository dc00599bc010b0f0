//! BRANCH: the conditional branches.
use crate::engine::{Engine, Outcome, State};
use crate::error::EmbiveError;
use crate::instruction::alu::{to_unsigned, unsigned};
use crate::instruction::format::TypeB;
use crate::instruction::{pc_offset, trap, INSTRUCTION_SIZE};
use crate::memory::Memory;
use crate::register::get_spec;
use vstd::prelude::*;

verus! {

/// A conditional branch: compares `rs1` and `rs2` as the function code says
/// and, where the comparison holds, goes on at `pc + imm`.
pub struct Branch {
    /// The decoded fields.
    pub ty: TypeB,
}

impl Branch {
    /// The instruction that the word `data` encodes.
    pub open spec fn decode_spec(data: u32) -> Branch {
        Branch { ty: TypeB::decode_spec(data) }
    }

    /// Decodes the word `data`.
    #[inline(always)]
    pub fn decode(data: u32) -> (inst: Self)
        ensures
            inst == Self::decode_spec(data),
            inst.ty.imm % 2 == 0,
    {
        Self { ty: TypeB::decode(data) }
    }

    /// Whether the branch selected by `funct3` is taken on `a` and `b`, or
    /// `None` where `funct3` selects no branch. In order of `funct3`: BEQ,
    /// BNE, then two codes without a meaning, then BLT, BGE, BLTU, BGEU.
    pub open spec fn taken_spec(funct3: u8, a: i32, b: i32) -> Option<bool> {
        if funct3 == 0 {
            Some(a == b)
        } else if funct3 == 1 {
            Some(a != b)
        } else if funct3 == 4 {
            Some(a < b)
        } else if funct3 == 5 {
            Some(a >= b)
        } else if funct3 == 6 {
            Some(unsigned(a) < unsigned(b))
        } else if funct3 == 7 {
            Some(unsigned(a) >= unsigned(b))
        } else {
            None
        }
    }

    /// Decides whether the branch selected by `funct3` is taken on `a` and
    /// `b`.
    pub fn taken(funct3: u8, a: i32, b: i32) -> (r: Option<bool>)
        ensures
            r == Self::taken_spec(funct3, a, b),
    {
        match funct3 {
            0 => Some(a == b),
            1 => Some(a != b),
            4 => Some(a < b),
            5 => Some(a >= b),
            6 => Some(to_unsigned(a) < to_unsigned(b)),
            7 => Some(to_unsigned(a) >= to_unsigned(b)),
            _ => None,
        }
    }

    /// What the instruction does to `pre`. It reads `rs1` and `rs2` and
    /// sets the program counter: to `pc + imm` where the branch is taken,
    /// to the next instruction where it is not. Nothing else changes. It
    /// traps with `InvalidRegister` where a register index is 32 or more,
    /// and with `InvalidInstruction` where the function code selects no
    /// branch.
    ///
    /// The definition is opaque; `reveal(Branch::execute_spec)` opens it.
    #[verifier::opaque]
    pub open spec fn execute_spec<V>(&self, pre: State<V>) -> Outcome<V> {
        match (get_spec(pre.regs, self.ty.rs1), get_spec(pre.regs, self.ty.rs2)) {
            (Err(e), _) => trap(pre, e),
            (_, Err(e)) => trap(pre, e),
            (Ok(a), Ok(b)) => match Self::taken_spec(self.ty.funct3, a, b) {
                None => trap(pre, EmbiveError::InvalidInstruction),
                Some(taken) => Outcome {
                    state: State {
                        pc: if taken {
                            pc_offset(pre.pc, self.ty.imm as int)
                        } else {
                            pc_offset(pre.pc, INSTRUCTION_SIZE as int)
                        },
                        regs: pre.regs,
                        memory: pre.memory,
                    },
                    result: Ok(true),
                },
            },
        }
    }

    /// Executes the instruction on `engine`.
    #[inline(always)]
    pub fn execute<M: Memory, F>(&self, engine: &mut Engine<'_, M, F>) -> (r: Result<
        bool,
        EmbiveError,
    >)
        ensures
            old(engine).becomes(*final(engine), r, self.execute_spec(old(engine)@)),
    {
        proof {
            reveal(Branch::execute_spec);
        }
        let a: i32 = engine.registers.get(self.ty.rs1)?;
        let b: i32 = engine.registers.get(self.ty.rs2)?;
        let taken: bool = match Self::taken(self.ty.funct3, a, b) {
            Some(taken) => taken,
            None => return Err(EmbiveError::InvalidInstruction),
        };
        engine.program_counter = if taken {
            engine.program_counter.wrapping_add_signed(self.ty.imm)
        } else {
            engine.program_counter.wrapping_add(INSTRUCTION_SIZE)
        };
        Ok(true)
    }
}

} // verus!
