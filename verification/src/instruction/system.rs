//! SYSTEM: the environment call and the breakpoint.
use crate::engine::{Engine, HostReply, Outcome, State, SYSCALL_ARGS};
use crate::error::EmbiveError;
use crate::instruction::format::TypeI;
use crate::instruction::{pc_offset, trap, INSTRUCTION_SIZE};
use crate::memory::Memory;
use crate::register::{Register, Registers};
use vstd::prelude::*;

verus! {

/// ECALL and EBREAK.
pub struct System {
    /// The decoded fields.
    pub ty: TypeI,
}

impl System {
    /// The instruction that the word `data` encodes.
    pub open spec fn decode_spec(data: u32) -> System {
        System { ty: TypeI::decode_spec(data) }
    }

    /// Decodes the word `data`.
    #[inline(always)]
    pub fn decode(data: u32) -> (inst: Self)
        ensures
            inst == Self::decode_spec(data),
    {
        Self { ty: TypeI::decode(data) }
    }

    /// The number of the system call that `regs` asks for: the value of A7.
    pub open spec fn number_spec(regs: Seq<i32>) -> i32 {
        regs[Register::A7.index_spec() as int]
    }

    /// The arguments of the system call that `regs` asks for: the values of
    /// A0 to A5.
    pub open spec fn arguments_spec(regs: Seq<i32>) -> Seq<i32> {
        regs.subrange(
            Register::A0.index_spec() as int,
            Register::A0.index_spec() + SYSCALL_ARGS as int,
        )
    }

    /// The registers after a system call that returned `result`: a success
    /// leaves its value in A0 and 0 in A1, a failure leaves 0 in A0 and its
    /// error in A1. No other register changes.
    pub open spec fn returned_spec(regs: Seq<i32>, result: Result<i32, i32>) -> Seq<i32> {
        match result {
            Ok(value) => regs.update(Register::A0.index_spec() as int, value).update(
                Register::A1.index_spec() as int,
                0,
            ),
            Err(error) => regs.update(Register::A0.index_spec() as int, 0).update(
                Register::A1.index_spec() as int,
                error,
            ),
        }
    }

    /// Reads the number and the arguments of a system call from the
    /// registers.
    pub fn request(registers: &Registers) -> (r: (i32, [i32; SYSCALL_ARGS]))
        ensures
            r.0 == Self::number_spec(registers@),
            r.1@ == Self::arguments_spec(registers@),
    {
        let first: usize = Register::A0.index();
        let args: [i32; SYSCALL_ARGS] = [
            registers.inner[first],
            registers.inner[first + 1],
            registers.inner[first + 2],
            registers.inner[first + 3],
            registers.inner[first + 4],
            registers.inner[first + 5],
        ];
        assert(args@ =~= Self::arguments_spec(registers@));
        (registers.inner[Register::A7.index()], args)
    }

    /// Writes the result of a system call to A0 and A1.
    pub fn complete(registers: &mut Registers, result: Result<i32, i32>)
        ensures
            final(registers)@ == Self::returned_spec(old(registers)@, result),
    {
        let (first, second): (i32, i32) = match result {
            Ok(value) => (value, 0),
            Err(error) => (0, error),
        };
        registers.inner[Register::A0.index()] = first;
        registers.inner[Register::A1.index()] = second;
    }

    /// What the instruction does to `pre`, where `has_syscall` says whether
    /// the host configured a system-call function and `reply` is what that
    /// function came back with.
    ///
    /// With immediate 0 it is ECALL. Without a system-call function it traps
    /// with `NoSyscallFunction`. With one, the registers receive the result
    /// of the call, the memory is as the call left it, and execution goes on
    /// after the instruction. With immediate 1 it is EBREAK: the engine
    /// halts and nothing changes, the program counter included. Any other
    /// immediate, and any function code but 0, traps with
    /// `InvalidInstruction`.
    ///
    /// The definition is opaque; `reveal(System::execute_spec)` opens it.
    #[verifier::opaque]
    pub open spec fn execute_spec<V>(
        &self,
        pre: State<V>,
        has_syscall: bool,
        reply: HostReply<V>,
    ) -> Outcome<V> {
        if self.ty.funct3 != 0 {
            trap(pre, EmbiveError::InvalidInstruction)
        } else if self.ty.imm == 0 {
            if has_syscall {
                Outcome {
                    state: State {
                        pc: pc_offset(pre.pc, INSTRUCTION_SIZE as int),
                        regs: Self::returned_spec(pre.regs, reply.result),
                        memory: reply.memory,
                    },
                    result: Ok(true),
                }
            } else {
                trap(pre, EmbiveError::NoSyscallFunction)
            }
        } else if self.ty.imm == 1 {
            Outcome { state: pre, result: Ok(false) }
        } else {
            trap(pre, EmbiveError::InvalidInstruction)
        }
    }

    /// The system-call function `f`, called for the system call that `regs`
    /// asks for, with `args` as the arguments and with `memory`, may return
    /// `result`: its own contract allows it.
    pub open spec fn answers<M, F: Fn(i32, &[i32; SYSCALL_ARGS], &mut M) -> Result<i32, i32>>(
        f: F,
        regs: Seq<i32>,
        args: [i32; SYSCALL_ARGS],
        memory: &mut M,
        result: Result<i32, i32>,
    ) -> bool {
        &&& args@ == Self::arguments_spec(regs)
        &&& call_ensures(f, (Self::number_spec(regs), &args, memory), result)
    }

    /// Whether the instruction calls the host when executed with a
    /// system-call function configured.
    pub open spec fn calls_host(&self) -> bool {
        self.ty.funct3 == 0 && self.ty.imm == 0
    }

    /// Executes the instruction on `engine`.
    ///
    /// On ECALL the system-call function is called once, with the number
    /// and the arguments that [`System::request`] reads and with the memory
    /// of the engine. Whatever it returns, [`System::complete`] writes it to
    /// the registers, and the memory is as the function left it: the second
    /// clause says so in terms of the contract of the function itself. In
    /// every other case the host is not called, and the outcome does not
    /// depend on `reply`.
    #[inline(always)]
    pub fn execute<M: Memory, F: Fn(i32, &[i32; SYSCALL_ARGS], &mut M) -> Result<i32, i32>>(
        &self,
        engine: &mut Engine<'_, M, F>,
    ) -> (r: Result<bool, EmbiveError>)
        requires
            old(engine).wf(),
        ensures
            exists|reply: HostReply<M::V>|
                old(engine).becomes(
                    *final(engine),
                    r,
                    #[trigger] self.execute_spec(old(engine)@, old(engine).has_syscall(), reply),
                ),
            self.calls_host() && old(engine).has_syscall() ==> exists|
                args: [i32; SYSCALL_ARGS],
                handed: &mut M,
                result: Result<i32, i32>,
            |
                {
                    &&& #[trigger] Self::answers(
                        old(engine).config.syscall_fn->Some_0,
                        old(engine)@.regs,
                        args,
                        handed,
                        result,
                    )
                    &&& handed@ == old(engine)@.memory
                    &&& final(handed)@ == final(engine)@.memory
                    &&& final(engine)@.regs == Self::returned_spec(old(engine)@.regs, result)
                },
    {
        proof {
            reveal(System::execute_spec);
        }
        let ghost pre = engine@;
        if self.ty.funct3 != 0 {
            proof {
                let reply = HostReply { result: Ok(0), memory: pre.memory };
                assert(self.execute_spec(pre, engine.has_syscall(), reply) == trap(
                    pre,
                    EmbiveError::InvalidInstruction,
                ));
            }
            return Err(EmbiveError::InvalidInstruction);
        }
        match self.ty.imm {
            0 => match &engine.config.syscall_fn {
                Some(syscall_fn) => {
                    let (number, args) = Self::request(&engine.registers);
                    let ghost before = engine.memory@;
                    let result: Result<i32, i32> = syscall_fn(number, &args, engine.memory);
                    proof {
                        let handed = choose|handed: &mut M|
                            handed@ == before && final(handed)@ == engine.memory@
                                && #[trigger] call_ensures(
                                *syscall_fn,
                                (number, &args, handed),
                                result,
                            );
                        assert(Self::answers(*syscall_fn, pre.regs, args, handed, result));
                    }
                    Self::complete(&mut engine.registers, result);
                    engine.program_counter = engine.program_counter.wrapping_add(
                        INSTRUCTION_SIZE,
                    );
                    proof {
                        let reply = HostReply { result, memory: engine@.memory };
                        assert(engine@ == self.execute_spec(pre, true, reply).state);
                    }
                    Ok(true)
                },
                None => {
                    proof {
                        let reply = HostReply { result: Ok(0), memory: pre.memory };
                        assert(self.execute_spec(pre, false, reply) == trap(
                            pre,
                            EmbiveError::NoSyscallFunction,
                        ));
                    }
                    Err(EmbiveError::NoSyscallFunction)
                },
            },
            1 => {
                proof {
                    let reply = HostReply { result: Ok(0), memory: pre.memory };
                    assert(self.execute_spec(pre, engine.has_syscall(), reply).state == pre);
                }
                Ok(false)
            },
            _ => {
                proof {
                    let reply = HostReply { result: Ok(0), memory: pre.memory };
                    assert(self.execute_spec(pre, engine.has_syscall(), reply) == trap(
                        pre,
                        EmbiveError::InvalidInstruction,
                    ));
                }
                Err(EmbiveError::InvalidInstruction)
            },
        }
    }
}

} // verus!
