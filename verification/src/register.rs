//! The register file.
use crate::error::EmbiveError;
use vstd::prelude::*;

verus! {

/// Number of general purpose registers.
pub const REGISTER_COUNT: usize = 32;

/// The registers by their ABI names, in index order (`Zero` is x0, `T6` is x31).
#[derive(Debug, PartialEq, Eq, Clone, Copy, Structural)]
pub enum Register {
    /// x0, reads as 0.
    Zero,
    /// x1, return address.
    RA,
    /// x2, stack pointer.
    SP,
    /// x3, global pointer.
    GP,
    /// x4, thread pointer.
    TP,
    /// x5, temporary.
    T0,
    /// x6, temporary.
    T1,
    /// x7, temporary.
    T2,
    /// x8, saved.
    S0,
    /// x9, saved.
    S1,
    /// x10, argument and return value.
    A0,
    /// x11, argument and return value.
    A1,
    /// x12, argument.
    A2,
    /// x13, argument.
    A3,
    /// x14, argument.
    A4,
    /// x15, argument.
    A5,
    /// x16, argument.
    A6,
    /// x17, argument.
    A7,
    /// x18, saved.
    S2,
    /// x19, saved.
    S3,
    /// x20, saved.
    S4,
    /// x21, saved.
    S5,
    /// x22, saved.
    S6,
    /// x23, saved.
    S7,
    /// x24, saved.
    S8,
    /// x25, saved.
    S9,
    /// x26, saved.
    S10,
    /// x27, saved.
    S11,
    /// x28, temporary.
    T3,
    /// x29, temporary.
    T4,
    /// x30, temporary.
    T5,
    /// x31, temporary.
    T6,
}

impl Register {
    /// The index of this register in the register file.
    pub open spec fn index_spec(self) -> usize {
        match self {
            Register::Zero => 0,
            Register::RA => 1,
            Register::SP => 2,
            Register::GP => 3,
            Register::TP => 4,
            Register::T0 => 5,
            Register::T1 => 6,
            Register::T2 => 7,
            Register::S0 => 8,
            Register::S1 => 9,
            Register::A0 => 10,
            Register::A1 => 11,
            Register::A2 => 12,
            Register::A3 => 13,
            Register::A4 => 14,
            Register::A5 => 15,
            Register::A6 => 16,
            Register::A7 => 17,
            Register::S2 => 18,
            Register::S3 => 19,
            Register::S4 => 20,
            Register::S5 => 21,
            Register::S6 => 22,
            Register::S7 => 23,
            Register::S8 => 24,
            Register::S9 => 25,
            Register::S10 => 26,
            Register::S11 => 27,
            Register::T3 => 28,
            Register::T4 => 29,
            Register::T5 => 30,
            Register::T6 => 31,
        }
    }

    /// The index of this register in the register file, always below
    /// [`REGISTER_COUNT`].
    #[verifier::when_used_as_spec(index_spec)]
    pub fn index(self) -> (i: usize)
        ensures
            i == self.index_spec(),
            i < REGISTER_COUNT,
    {
        match self {
            Register::Zero => 0,
            Register::RA => 1,
            Register::SP => 2,
            Register::GP => 3,
            Register::TP => 4,
            Register::T0 => 5,
            Register::T1 => 6,
            Register::T2 => 7,
            Register::S0 => 8,
            Register::S1 => 9,
            Register::A0 => 10,
            Register::A1 => 11,
            Register::A2 => 12,
            Register::A3 => 13,
            Register::A4 => 14,
            Register::A5 => 15,
            Register::A6 => 16,
            Register::A7 => 17,
            Register::S2 => 18,
            Register::S3 => 19,
            Register::S4 => 20,
            Register::S5 => 21,
            Register::S6 => 22,
            Register::S7 => 23,
            Register::S8 => 24,
            Register::S9 => 25,
            Register::S10 => 26,
            Register::S11 => 27,
            Register::T3 => 28,
            Register::T4 => 29,
            Register::T5 => 30,
            Register::T6 => 31,
        }
    }
}

/// The 32 general purpose registers, each a signed 32-bit value.
///
/// The register file itself treats slot 0 like any other slot. That x0 reads
/// as zero is kept by the instructions, none of which writes to it.
#[derive(Debug, PartialEq, Copy, Clone)]
pub struct Registers {
    /// The slots, by index.
    pub inner: [i32; REGISTER_COUNT],
}

impl View for Registers {
    type V = Seq<i32>;

    /// The register values in index order; always 32 of them.
    open spec fn view(&self) -> Seq<i32> {
        self.inner@
    }
}

impl Default for Registers {
    fn default() -> (r: Self)
        ensures
            r@ == zeroed(),
    {
        Self::new()
    }
}

/// The register file after a reset: 32 zeros.
pub open spec fn zeroed() -> Seq<i32> {
    Seq::new(REGISTER_COUNT as nat, |i: int| 0i32)
}

impl Registers {
    /// A register file with every register set to 0.
    pub fn new() -> (r: Self)
        ensures
            r@ == zeroed(),
    {
        let r = Self { inner: [0; REGISTER_COUNT] };
        assert(r@ =~= zeroed());
        r
    }

    /// Sets every register back to 0.
    pub fn reset(&mut self)
        ensures
            final(self)@ == zeroed(),
    {
        self.inner = [0; REGISTER_COUNT];
        assert(self@ =~= zeroed());
    }

    /// Reads the register at `index`.
    ///
    /// Fails with `InvalidRegister` exactly when `index` is 32 or more.
    #[inline]
    pub fn get(&self, index: usize) -> (r: Result<i32, EmbiveError>)
        ensures
            r == get_spec(self@, index),
    {
        if index >= REGISTER_COUNT {
            return Err(EmbiveError::InvalidRegister);
        }
        Ok(self.inner[index])
    }

    /// Borrows the register at `index` for writing.
    ///
    /// Fails with `InvalidRegister` exactly when `index` is 32 or more, and
    /// then nothing changes. Otherwise the slot holds its current value, and
    /// whatever the caller leaves in it is the only change to the file.
    /// Slot 0 is handed out like any other: an instruction that must not
    /// write x0 does not ask for it.
    #[inline]
    pub fn get_mut(&mut self, index: usize) -> (r: Result<&mut i32, EmbiveError>)
        ensures
            index >= REGISTER_COUNT ==> r == Err::<&mut i32, EmbiveError>(
                EmbiveError::InvalidRegister,
            ) && final(self)@ == old(self)@,
            index < REGISTER_COUNT ==> r is Ok && *r->Ok_0 == old(self)@[index as int]
                && final(self)@ == old(self)@.update(index as int, *final(r->Ok_0)),
    {
        if index >= REGISTER_COUNT {
            return Err(EmbiveError::InvalidRegister);
        }
        Ok(&mut self.inner[index])
    }
}

/// What reading register `index` of `regs` gives.
pub open spec fn get_spec(regs: Seq<i32>, index: usize) -> Result<i32, EmbiveError> {
    if index >= REGISTER_COUNT {
        Err(EmbiveError::InvalidRegister)
    } else {
        Ok(regs[index as int])
    }
}

} // verus!
