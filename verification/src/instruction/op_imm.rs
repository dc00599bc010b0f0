//! OP-IMM: the register-immediate operations.
use crate::engine::{Engine, Outcome, State};
use crate::error::EmbiveError;
use crate::instruction::alu::{
    less_than, less_than_unsigned, shift_amount, shift_left, shift_right_arithmetic,
    shift_right_logical, sum, to_signed, to_unsigned, wrap,
};
use crate::instruction::format::{TypeI, TypeR};
use crate::instruction::op::Op;
use crate::instruction::{pc_offset, retire, trap, INSTRUCTION_SIZE};
use crate::memory::Memory;
use crate::register::get_spec;
use vstd::prelude::*;

verus! {

/// A register-immediate operation: `rd = rs1 <op> imm`, where the function
/// code selects the operation.
pub struct OpImm {
    /// The decoded fields.
    pub ty: TypeI,
}

impl OpImm {
    /// The instruction that the word `data` encodes.
    pub open spec fn decode_spec(data: u32) -> OpImm {
        OpImm { ty: TypeI::decode_spec(data) }
    }

    /// Decodes the word `data`.
    #[inline(always)]
    pub fn decode(data: u32) -> (inst: Self)
        ensures
            inst == Self::decode_spec(data),
    {
        Self { ty: TypeI::decode(data) }
    }

    /// Whether a right shift with immediate `imm` is arithmetic: bit 10 of
    /// the immediate says so.
    pub open spec fn is_arithmetic(imm: i32) -> bool {
        (imm as int / 0x400) % 2 == 1
    }

    /// What the operation selected by `funct3` makes of `a` and the
    /// immediate, or `None` where `funct3` is no 3-bit code.
    ///
    /// In order of `funct3`: ADDI, SLLI, SLTI, SLTIU, XORI, SRLI or SRAI,
    /// ORI, ANDI. A shift takes its amount from the low five bits of the
    /// immediate and ignores the rest, but for the bit that tells SRAI from
    /// SRLI.
    pub open spec fn value_spec(funct3: u8, a: i32, imm: i32) -> Option<i32> {
        if funct3 == 0 {
            Some(wrap(a + imm))
        } else if funct3 == 1 {
            Some(shift_left(a, imm))
        } else if funct3 == 2 {
            Some(less_than(a, imm))
        } else if funct3 == 3 {
            Some(less_than_unsigned(a, imm))
        } else if funct3 == 4 {
            Some(a ^ imm)
        } else if funct3 == 5 {
            if Self::is_arithmetic(imm) {
                Some(shift_right_arithmetic(a, imm))
            } else {
                Some(shift_right_logical(a, imm))
            }
        } else if funct3 == 6 {
            Some(a | imm)
        } else if funct3 == 7 {
            Some(a & imm)
        } else {
            None
        }
    }

    /// Computes the operation selected by `funct3` on `a` and the immediate.
    pub fn value(funct3: u8, a: i32, imm: i32) -> (r: Option<i32>)
        ensures
            r == Self::value_spec(funct3, a, imm),
    {
        match funct3 {
            0 => Some(sum(a, imm)),
            1 => Some(to_signed(to_unsigned(a) << shift_amount(imm))),
            2 => Some(if a < imm { 1 } else { 0 }),
            3 => Some(if to_unsigned(a) < to_unsigned(imm) { 1 } else { 0 }),
            4 => Some(a ^ imm),
            5 => {
                let flag: i32 = imm & 0x400;
                assert((flag != 0) == ((imm as int / 0x400) % 2 == 1)) by (bit_vector)
                    requires
                        flag == imm & 0x400,
                ;
                if flag != 0 {
                    Some(a >> shift_amount(imm))
                } else {
                    Some(to_signed(to_unsigned(a) >> shift_amount(imm)))
                }
            },
            6 => Some(a | imm),
            7 => Some(a & imm),
            _ => None,
        }
    }

    /// What the instruction does to `pre`. It reads `rs1`, computes, and
    /// writes `rd`; then execution goes on after it. It traps with
    /// `InvalidRegister` where a register index is 32 or more, and with
    /// `InvalidInstruction` where the function code selects no operation.
    ///
    /// The definition is opaque; `reveal(OpImm::execute_spec)` opens it.
    #[verifier::opaque]
    pub open spec fn execute_spec<V>(&self, pre: State<V>) -> Outcome<V> {
        match get_spec(pre.regs, self.ty.rs1) {
            Err(e) => trap(pre, e),
            Ok(a) => match Self::value_spec(self.ty.funct3, a, self.ty.imm) {
                None => trap(pre, EmbiveError::InvalidInstruction),
                Some(value) => retire(
                    pre,
                    self.ty.rd,
                    value,
                    pc_offset(pre.pc, INSTRUCTION_SIZE as int),
                ),
            },
        }
    }

    /// Executes the instruction on `engine`.
    #[inline(always)]
    pub fn execute<M: Memory, F>(&self, engine: &mut Engine<'_, M, F>) -> (r: Result<
        bool,
        EmbiveError,
    >)
        ensures
            old(engine).becomes(*final(engine), r, self.execute_spec(old(engine)@)),
    {
        proof {
            reveal(OpImm::execute_spec);
        }
        let a: i32 = engine.registers.get(self.ty.rs1)?;
        let value: i32 = match Self::value(self.ty.funct3, a, self.ty.imm) {
            Some(value) => value,
            None => return Err(EmbiveError::InvalidInstruction),
        };
        if self.ty.rd != 0 {
            let reg = engine.registers.get_mut(self.ty.rd)?;
            *reg = value;
        }
        engine.program_counter = engine.program_counter.wrapping_add(INSTRUCTION_SIZE);
        Ok(true)
    }
}

/// Adding the immediate 0 and adding register x0 are the same instruction
/// in effect: as long as x0 holds 0, `ADDI rd, rs, 0` and `ADD rd, rs, x0`
/// have the same outcome, and that is to copy `rs` to `rd`.
pub proof fn lemma_add_zero<V>(rd: usize, rs: usize, pre: State<V>)
    requires
        pre.regs.len() == 32,
        pre.regs[0] == 0,
    ensures
        (OpImm { ty: TypeI { rd, rs1: rs, imm: 0, funct3: 0 } }).execute_spec(pre) == (Op {
            ty: TypeR { rd, rs1: rs, rs2: 0, funct3: 0, funct7: 0 },
        }).execute_spec(pre),
        rd < 32 && rs < 32 ==> (OpImm {
            ty: TypeI { rd, rs1: rs, imm: 0, funct3: 0 },
        }).execute_spec(pre).state.regs == crate::instruction::write_register(
            pre.regs,
            rd,
            pre.regs[rs as int],
        ),
{
    reveal(OpImm::execute_spec);
    reveal(Op::execute_spec);
}

} // verus!
