//! OP: the register-register operations, and the multiply and divide
//! operations of the M extension.
use crate::engine::{Engine, Outcome, State};
use crate::error::EmbiveError;
use crate::instruction::alu::{
    difference, divide, divide_unsigned, high_product, high_product_signed_unsigned,
    high_product_unsigned, less_than, less_than_unsigned, product, product_high,
    product_high_signed_unsigned, product_high_unsigned, quotient, quotient_unsigned, remain,
    remain_unsigned, remainder, remainder_unsigned, shift_amount, shift_left,
    shift_right_arithmetic, shift_right_logical, sum, to_signed, to_unsigned, wrap,
};
use crate::instruction::format::TypeR;
use crate::instruction::{pc_offset, retire, trap, INSTRUCTION_SIZE};
use crate::memory::Memory;
use crate::register::get_spec;
use vstd::prelude::*;

verus! {

/// A register-register operation: `rd = rs1 <op> rs2`, where the function
/// codes select the operation.
pub struct Op {
    /// The decoded fields.
    pub ty: TypeR,
}

impl Op {
    /// The instruction that the word `data` encodes.
    pub open spec fn decode_spec(data: u32) -> Op {
        Op { ty: TypeR::decode_spec(data) }
    }

    /// Decodes the word `data`.
    #[inline(always)]
    pub fn decode(data: u32) -> (inst: Self)
        ensures
            inst == Self::decode_spec(data),
    {
        Self { ty: TypeR::decode(data) }
    }

    /// What the operation selected by `funct7` and `funct3` makes of `a` and
    /// `b`, or `None` where the two select no operation.
    ///
    /// With `funct7` 0: ADD, SLL, SLT, SLTU, XOR, SRL, OR, AND. With 0x20:
    /// SUB and SRA. With 1: MUL, MULH, MULHSU, MULHU, DIV, DIVU, REM, REMU.
    pub open spec fn value_spec(funct7: u8, funct3: u8, a: i32, b: i32) -> Option<i32> {
        if funct7 == 0x00 {
            if funct3 == 0 {
                Some(wrap(a + b))
            } else if funct3 == 1 {
                Some(shift_left(a, b))
            } else if funct3 == 2 {
                Some(less_than(a, b))
            } else if funct3 == 3 {
                Some(less_than_unsigned(a, b))
            } else if funct3 == 4 {
                Some(a ^ b)
            } else if funct3 == 5 {
                Some(shift_right_logical(a, b))
            } else if funct3 == 6 {
                Some(a | b)
            } else if funct3 == 7 {
                Some(a & b)
            } else {
                None
            }
        } else if funct7 == 0x20 {
            if funct3 == 0 {
                Some(wrap(a - b))
            } else if funct3 == 5 {
                Some(shift_right_arithmetic(a, b))
            } else {
                None
            }
        } else if funct7 == 0x01 {
            if funct3 == 0 {
                Some(wrap(a * b))
            } else if funct3 == 1 {
                Some(product_high(a, b))
            } else if funct3 == 2 {
                Some(product_high_signed_unsigned(a, b))
            } else if funct3 == 3 {
                Some(product_high_unsigned(a, b))
            } else if funct3 == 4 {
                Some(quotient(a, b))
            } else if funct3 == 5 {
                Some(quotient_unsigned(a, b))
            } else if funct3 == 6 {
                Some(remainder(a, b))
            } else if funct3 == 7 {
                Some(remainder_unsigned(a, b))
            } else {
                None
            }
        } else {
            None
        }
    }

    /// Computes the operation selected by `funct7` and `funct3` on `a` and
    /// `b`. `None` where the two select no operation; no operand makes an
    /// operation fail.
    pub fn value(funct7: u8, funct3: u8, a: i32, b: i32) -> (r: Option<i32>)
        ensures
            r == Self::value_spec(funct7, funct3, a, b),
    {
        match funct7 {
            0x00 => match funct3 {
                0 => Some(sum(a, b)),
                1 => Some(to_signed(to_unsigned(a) << shift_amount(b))),
                2 => Some(if a < b { 1 } else { 0 }),
                3 => Some(if to_unsigned(a) < to_unsigned(b) { 1 } else { 0 }),
                4 => Some(a ^ b),
                5 => Some(to_signed(to_unsigned(a) >> shift_amount(b))),
                6 => Some(a | b),
                7 => Some(a & b),
                _ => None,
            },
            0x20 => match funct3 {
                0 => Some(difference(a, b)),
                5 => Some(a >> shift_amount(b)),
                _ => None,
            },
            0x01 => match funct3 {
                0 => Some(product(a, b)),
                1 => Some(high_product(a, b)),
                2 => Some(high_product_signed_unsigned(a, b)),
                3 => Some(high_product_unsigned(a, b)),
                4 => Some(divide(a, b)),
                5 => Some(divide_unsigned(a, b)),
                6 => Some(remain(a, b)),
                7 => Some(remain_unsigned(a, b)),
                _ => None,
            },
            _ => None,
        }
    }

    /// What the instruction does to `pre`. It reads `rs1` and `rs2`,
    /// computes, and writes `rd`; then execution goes on after it. It traps
    /// with `InvalidRegister` where a register index is 32 or more, and with
    /// `InvalidInstruction` where the function codes select no operation.
    ///
    /// The definition is opaque; `reveal(Op::execute_spec)` opens it.
    #[verifier::opaque]
    pub open spec fn execute_spec<V>(&self, pre: State<V>) -> Outcome<V> {
        match (get_spec(pre.regs, self.ty.rs1), get_spec(pre.regs, self.ty.rs2)) {
            (Err(e), _) => trap(pre, e),
            (_, Err(e)) => trap(pre, e),
            (Ok(a), Ok(b)) => match Self::value_spec(self.ty.funct7, self.ty.funct3, a, b) {
                None => trap(pre, EmbiveError::InvalidInstruction),
                Some(value) => retire(
                    pre,
                    self.ty.rd,
                    value,
                    pc_offset(pre.pc, INSTRUCTION_SIZE as int),
                ),
            },
        }
    }

    /// Executes the instruction on `engine`.
    #[inline(always)]
    pub fn execute<M: Memory, F>(&self, engine: &mut Engine<'_, M, F>) -> (r: Result<
        bool,
        EmbiveError,
    >)
        ensures
            old(engine).becomes(*final(engine), r, self.execute_spec(old(engine)@)),
    {
        proof {
            reveal(Op::execute_spec);
        }
        let a: i32 = engine.registers.get(self.ty.rs1)?;
        let b: i32 = engine.registers.get(self.ty.rs2)?;
        let value: i32 = match Self::value(self.ty.funct7, self.ty.funct3, a, b) {
            Some(value) => value,
            None => return Err(EmbiveError::InvalidInstruction),
        };
        if self.ty.rd != 0 {
            let reg = engine.registers.get_mut(self.ty.rd)?;
            *reg = value;
        }
        engine.program_counter = engine.program_counter.wrapping_add(INSTRUCTION_SIZE);
        Ok(true)
    }
}

/// Division never traps, whatever the operands: every divide and remainder
/// operation has a value. Dividing by zero gives a quotient of all ones and
/// leaves the dividend as remainder; dividing the least number by -1 gives
/// the least number and a remainder of 0.
pub proof fn lemma_division_never_traps(a: i32, b: i32)
    ensures
        Op::value_spec(1, 4, a, b) is Some,
        Op::value_spec(1, 5, a, b) is Some,
        Op::value_spec(1, 6, a, b) is Some,
        Op::value_spec(1, 7, a, b) is Some,
        Op::value_spec(1, 4, a, 0) == Some(-1i32),
        Op::value_spec(1, 5, a, 0) == Some(-1i32),
        Op::value_spec(1, 6, a, 0) == Some(a),
        Op::value_spec(1, 7, a, 0) == Some(a),
        Op::value_spec(1, 4, i32::MIN, -1i32) == Some(i32::MIN),
        Op::value_spec(1, 6, i32::MIN, -1i32) == Some(0i32),
{
    assert(0x8000_0000int / 1 == 0x8000_0000int);
}

/// A shift looks at the low five bits of its second operand only: shifting
/// by 32 more shifts by the same amount, and shifting by exactly 32 leaves
/// the first operand as it is.
pub proof fn lemma_shift_amount_is_masked(a: i32, b: i32)
    ensures
        b <= i32::MAX - 32 ==> shift_left(a, (b + 32) as i32) == shift_left(a, b),
        b <= i32::MAX - 32 ==> shift_right_logical(a, (b + 32) as i32) == shift_right_logical(
            a,
            b,
        ),
        b <= i32::MAX - 32 ==> shift_right_arithmetic(a, (b + 32) as i32)
            == shift_right_arithmetic(a, b),
        shift_left(a, 32) == a,
        shift_right_logical(a, 32) == a,
        shift_right_arithmetic(a, 32) == a,
{
    let u = crate::instruction::alu::unsigned(a);
    assert(u << 0u32 == u) by (bit_vector);
    assert(u >> 0u32 == u) by (bit_vector);
    assert(a >> 0u32 == a) by (bit_vector);
}

} // verus!
