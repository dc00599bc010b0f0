//! An interpreter for the RV32IM unprivileged RISC-V instruction set, made to
//! run untrusted guest programs inside a host that stays in control.
//!
//! The host hands the engine a memory (read-only code at address 0, writable
//! RAM at [`memory::RAM_OFFSET`]) and, optionally, a system-call function.
//! The engine then executes one instruction per [`engine::Engine::step`].
//! Every failure is an ordinary [`error::EmbiveError`] value: no operation of
//! this crate panics, whatever bytes the guest program consists of, and the
//! engine can be inspected and resumed after any of them.
//!
//! Every function carries a contract that Verus proves. The contracts
//! are phrased over a mathematical model of the machine, [`engine::State`],
//! and over the pure functions in `instruction` that say what each
//! instruction computes.
pub mod engine;
pub mod error;
pub mod instruction;
pub mod memory;
pub mod register;
