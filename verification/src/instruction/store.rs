//! STORE: stores from a register into memory.
use crate::engine::{Engine, Outcome, State};
use crate::error::EmbiveError;
use crate::instruction::alu::{sum, to_unsigned, unsigned, wrap};
use crate::instruction::format::TypeS;
use crate::instruction::{pc_offset, trap, INSTRUCTION_SIZE};
use crate::memory::{bytes_of, low_byte, low_half, word_to_bytes, Memory};
use crate::register::get_spec;
use vstd::prelude::*;

verus! {

/// A store: the low bytes of `rs2` go to address `rs1 + imm`, where the
/// function code selects how many.
pub struct Store {
    /// The decoded fields.
    pub ty: TypeS,
}

impl Store {
    /// The instruction that the word `data` encodes.
    pub open spec fn decode_spec(data: u32) -> Store {
        Store { ty: TypeS::decode_spec(data) }
    }

    /// Decodes the word `data`.
    #[inline(always)]
    pub fn decode(data: u32) -> (inst: Self)
        ensures
            inst == Self::decode_spec(data),
    {
        Self { ty: TypeS::decode(data) }
    }

    /// The number of bytes that the store selected by `funct3` writes, or
    /// `None` where `funct3` selects no store: 1 for SB, 2 for SH, 4 for SW.
    pub open spec fn width_spec(funct3: u8) -> Option<nat> {
        if funct3 == 0 {
            Some(1)
        } else if funct3 == 1 {
            Some(2)
        } else if funct3 == 2 {
            Some(4)
        } else {
            None
        }
    }

    /// The address that the instruction accesses when `rs1` holds `base`.
    pub open spec fn address_spec(&self, base: i32) -> u32 {
        unsigned(wrap(base + self.ty.imm))
    }

    /// What the instruction does to `pre`. It reads `rs1` and `rs2` and
    /// stores the low bytes of `rs2`, lowest first; then execution goes on
    /// after it. It traps with `InvalidRegister` where a register index is
    /// 32 or more, with `InvalidInstruction` where the function code selects
    /// no store, and with `InvalidMemory` where the memory refuses the
    /// access.
    ///
    /// The definition is opaque; `reveal(Store::execute_spec)` opens it.
    #[verifier::opaque]
    pub open spec fn execute_spec<M: Memory>(&self, pre: State<M::V>) -> Outcome<M::V> {
        match (get_spec(pre.regs, self.ty.rs1), get_spec(pre.regs, self.ty.rs2)) {
            (Err(e), _) => trap(pre, e),
            (_, Err(e)) => trap(pre, e),
            (Ok(base), Ok(value)) => match Self::width_spec(self.ty.funct3) {
                None => trap(pre, EmbiveError::InvalidInstruction),
                Some(width) => match M::store_spec(
                    pre.memory,
                    self.address_spec(base),
                    bytes_of(unsigned(value), width),
                ) {
                    None => trap(pre, EmbiveError::InvalidMemory),
                    Some(memory) => Outcome {
                        state: State {
                            pc: pc_offset(pre.pc, INSTRUCTION_SIZE as int),
                            regs: pre.regs,
                            memory,
                        },
                        result: Ok(true),
                    },
                },
            },
        }
    }

    /// Executes the instruction on `engine`.
    #[inline(always)]
    pub fn execute<M: Memory, F>(&self, engine: &mut Engine<'_, M, F>) -> (r: Result<
        bool,
        EmbiveError,
    >)
        ensures
            old(engine).becomes(*final(engine), r, self.execute_spec::<M>(old(engine)@)),
    {
        proof {
            reveal(Store::execute_spec);
        }
        let base: i32 = engine.registers.get(self.ty.rs1)?;
        let value: u32 = to_unsigned(engine.registers.get(self.ty.rs2)?);
        let address: u32 = to_unsigned(sum(base, self.ty.imm));
        match self.ty.funct3 {
            0 => engine.memory.store::<1>(address, low_byte(value))?,
            1 => engine.memory.store::<2>(address, low_half(value))?,
            2 => engine.memory.store::<4>(address, word_to_bytes(value))?,
            _ => return Err(EmbiveError::InvalidInstruction),
        }
        engine.program_counter = engine.program_counter.wrapping_add(INSTRUCTION_SIZE);
        Ok(true)
    }
}

/// What SW stores, LW loads: where a store of the word in `rs2` to an
/// address has gone through, a load of a word from the same address, into
/// any register but x0, gives the value of `rs2` back, bit for bit. This
/// holds of the memory made of two slices.
pub proof fn lemma_store_word_load_word<'a>(
    store: Store,
    load: crate::instruction::load::Load,
    pre: State<crate::memory::Regions>,
)
    requires
        pre.regs.len() == 32,
        store.ty.funct3 == 2,
        load.ty.funct3 == 2,
        load.ty.rs1 == store.ty.rs1,
        load.ty.imm == store.ty.imm,
        0 < load.ty.rd < 32,
        store.execute_spec::<crate::memory::SliceMemory<'a>>(pre).result == Ok::<
            bool,
            EmbiveError,
        >(true),
    ensures
        load.execute_spec::<crate::memory::SliceMemory<'a>>(
            store.execute_spec::<crate::memory::SliceMemory<'a>>(pre).state,
        ).result == Ok::<bool, EmbiveError>(true),
        load.execute_spec::<crate::memory::SliceMemory<'a>>(
            store.execute_spec::<crate::memory::SliceMemory<'a>>(pre).state,
        ).state.regs[load.ty.rd as int] == pre.regs[store.ty.rs2 as int],
{
    reveal(Store::execute_spec);
    reveal(crate::instruction::load::Load::execute_spec);
    let base = pre.regs[store.ty.rs1 as int];
    let value = pre.regs[store.ty.rs2 as int];
    let data = bytes_of(unsigned(value), 4);
    crate::memory::lemma_load_after_store(pre.memory, store.address_spec(base), data);
    crate::memory::lemma_word_round_trip(unsigned(value));
}

} // verus!
