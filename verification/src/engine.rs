//! The engine: the state of the machine and the two ways to drive it, one
//! instruction at a time or until the program halts.
use crate::error::EmbiveError;
use crate::instruction::system::System;
use crate::instruction::{
    decode_execute, execute_spec, is_ecall, lemma_execute_orderly, orderly, trap,
};
use crate::memory::{word_from_bytes, word_of, Memory};
use crate::register::{zeroed, Registers};
use vstd::prelude::*;

verus! {

/// Number of arguments handed to the system-call function: the registers A0
/// to A5.
pub const SYSCALL_ARGS: usize = 6;

/// The type of a plain function that serves as system-call function for an
/// engine over a memory of type `M`. A closure of the same shape does as
/// well.
pub type SyscallFn<M> = fn(i32, &[i32; SYSCALL_ARGS], &mut M) -> Result<i32, i32>;

/// The state of the machine as the contracts see it.
pub struct State<V> {
    /// The program counter.
    pub pc: u32,
    /// The 32 registers, by index.
    pub regs: Seq<i32>,
    /// The view of the memory.
    pub memory: V,
}

/// What an instruction leaves behind: the state after it, and what it
/// reports. `Ok(true)` asks for the next instruction, `Ok(false)` halts.
pub struct Outcome<V> {
    /// The state after the instruction.
    pub state: State<V>,
    /// Continue, halt, or the trap.
    pub result: Result<bool, EmbiveError>,
}

/// What came back from the host's system-call function: its result, and the
/// memory as the function left it.
pub struct HostReply<V> {
    /// The value the function returned.
    pub result: Result<i32, i32>,
    /// The memory after the call.
    pub memory: V,
}

/// The options of an engine.
///
/// `F` is the type of the system-call function, a function or closure
/// `Fn(i32, &[i32; SYSCALL_ARGS], &mut M) -> Result<i32, i32>` over the
/// memory type `M` of the engine. It gets the number from A7, the arguments
/// from A0 to A5 and the memory of the engine, which it may read and write.
pub struct Config<F> {
    /// Called on `ecall`. Without one, `ecall` traps with
    /// `NoSyscallFunction`.
    pub syscall_fn: Option<F>,
    /// The most instructions that one `run` executes before it yields.
    /// Without one, a `run` yields after `u64::MAX` instructions.
    pub instruction_limit: Option<u32>,
}

impl<F> Default for Config<F> {
    /// No system-call function and no instruction limit.
    fn default() -> (config: Self)
        ensures
            config.syscall_fn is None,
            config.instruction_limit is None,
    {
        Config { syscall_fn: None, instruction_limit: None }
    }
}

impl<F> Config<F> {
    /// The number of instructions that one `run` may execute.
    pub open spec fn budget(&self) -> nat {
        match self.instruction_limit {
            Some(limit) => limit as nat,
            None => u64::MAX as nat,
        }
    }
}

/// A virtual RV32IM hart over a memory of the host.
pub struct Engine<'a, M: Memory, F> {
    /// Address of the next instruction.
    pub program_counter: u32,
    /// The register file.
    pub registers: Registers,
    /// The memory that the program runs in.
    pub memory: &'a mut M,
    /// The options the engine was made with.
    pub config: Config<F>,
}

impl<'a, M: Memory, F> View for Engine<'a, M, F> {
    type V = State<M::V>;

    open spec fn view(&self) -> State<M::V> {
        State { pc: self.program_counter, regs: self.registers@, memory: self.memory@ }
    }
}

impl<'a, M: Memory, F> Engine<'a, M, F> {
    /// `self` turned into `post` by an instruction with outcome `out` that
    /// reported `result`: the state is that of the outcome, the report is
    /// its result, and the options are untouched.
    pub open spec fn becomes(
        self,
        post: Self,
        result: Result<bool, EmbiveError>,
        out: Outcome<M::V>,
    ) -> bool {
        &&& post@ == out.state
        &&& result == out.result
        &&& post.config == self.config
    }

    /// Whether a system-call function is configured.
    pub open spec fn has_syscall(&self) -> bool {
        self.config.syscall_fn is Some
    }

    /// Sets the registers and the program counter back to zero. Memory and
    /// options stay as they are.
    pub fn reset(&mut self)
        ensures
            final(self)@ == (State { pc: 0, regs: zeroed(), memory: old(self)@.memory }),
            final(self).config == old(self).config,
    {
        self.registers.reset();
        self.program_counter = 0;
    }
}

/// What one step does to `pre`: the instruction word is the four bytes at
/// the program counter, lowest byte first, and the step does what that word
/// says. Where the memory refuses to load them, the step traps with
/// `InvalidMemory`.
///
/// `has_syscall` and `reply` stand for the system-call function of the host
/// and for what it came back with; only an ECALL looks at them.
pub open spec fn step_spec<M: Memory>(
    pre: State<M::V>,
    has_syscall: bool,
    reply: HostReply<M::V>,
) -> Outcome<M::V> {
    match M::load_spec(pre.memory, pre.pc, 4) {
        None => trap(pre, EmbiveError::InvalidMemory),
        Some(bytes) => execute_spec::<M>(word_of(bytes), pre, has_syscall, reply),
    }
}

/// Whether the step from `pre` calls the host, given that the host has a
/// system-call function: the word at the program counter is an ECALL.
pub open spec fn calls_host<M: Memory>(pre: State<M::V>) -> bool {
    match M::load_spec(pre.memory, pre.pc, 4) {
        None => false,
        Some(bytes) => is_ecall(word_of(bytes)),
    }
}

/// `post` is reached from `pre` by exactly `steps` steps, each of which
/// asked for the next one, for some replies of the host to the system calls
/// among them.
pub open spec fn reaches<M: Memory>(
    pre: State<M::V>,
    post: State<M::V>,
    has_syscall: bool,
    steps: nat,
) -> bool
    decreases steps,
{
    if steps == 0 {
        post == pre
    } else {
        exists|mid: State<M::V>, reply: HostReply<M::V>|
            #![trigger step_spec::<M>(mid, has_syscall, reply)]
            reaches::<M>(pre, mid, has_syscall, (steps - 1) as nat) && step_spec::<M>(
                mid,
                has_syscall,
                reply,
            ) == (Outcome { state: post, result: Ok(true) })
    }
}

/// A run that started in `pre` with a budget of `budget` steps ended in
/// `post` with `result`, after `steps` steps that each asked for the next.
///
/// The steps lead from `pre` to `post`. Where the run yields, they are as
/// many as the budget. Where it halts or traps, they are fewer, and the
/// next step is the one that halts or traps, and it leaves `post` as it is;
/// `reply` is what the host replies in that step, which matters to no step
/// that halts or traps.
pub open spec fn run_spec<M: Memory>(
    pre: State<M::V>,
    has_syscall: bool,
    budget: nat,
    steps: nat,
    reply: HostReply<M::V>,
    post: State<M::V>,
    result: Result<(), EmbiveError>,
) -> bool {
    &&& reaches::<M>(pre, post, has_syscall, steps)
    &&& match result {
        Err(EmbiveError::InstructionLimitReached) => steps == budget,
        Ok(()) => steps < budget && step_spec::<M>(post, has_syscall, reply) == (Outcome {
            state: post,
            result: Ok(false),
        }),
        Err(error) => steps < budget && step_spec::<M>(post, has_syscall, reply) == trap(
            post,
            error,
        ),
    }
}

impl<F> Config<F> {
    /// The system-call function, if there is one, can be called with every
    /// number, every arguments and every memory of type `M`.
    pub open spec fn callable<M>(&self) -> bool where
        F: Fn(i32, &[i32; SYSCALL_ARGS], &mut M) -> Result<i32, i32>,
     {
        match self.syscall_fn {
            Some(f) => forall|number: i32, args: &[i32; SYSCALL_ARGS], memory: &mut M|
                call_requires(f, (number, args, memory)),
            None => true,
        }
    }
}

impl<'a, M: Memory, F: Fn(i32, &[i32; SYSCALL_ARGS], &mut M) -> Result<i32, i32>> Engine<'a, M, F> {
    /// The engine can be run: its system-call function, if it has one, can
    /// be called with whatever the program asks for.
    pub open spec fn wf(&self) -> bool {
        self.config.callable::<M>()
    }

    /// An engine over `memory` with the options `config`: all registers
    /// zero, the program counter at address 0. This never fails.
    pub fn new(memory: &'a mut M, config: Config<F>) -> (r: Result<Engine<'a, M, F>, EmbiveError>)
        requires
            config.callable::<M>(),
        ensures
            r is Ok,
            r->Ok_0@ == (State { pc: 0, regs: zeroed(), memory: old(memory)@ }),
            r->Ok_0.config == config,
            r->Ok_0.wf(),
    {
        Ok(Engine { program_counter: 0, registers: Registers::new(), memory, config })
    }

    /// Executes the instruction at the program counter.
    ///
    /// Returns `Ok(true)` where the program goes on and `Ok(false)` where
    /// it halted on an EBREAK. The engine ends up as [`step_spec`] says;
    /// where the step called the system-call function of the host, the
    /// second clause says what the contract of that function makes of it. A
    /// trap and a halt leave the engine as it was, so a host may look into
    /// it, mend it, and step again. A step that finds x0 at zero leaves it
    /// at zero, and one that finds the program counter even leaves it even.
    pub fn step(&mut self) -> (r: Result<bool, EmbiveError>)
        requires
            old(self).wf(),
        ensures
            exists|reply: HostReply<M::V>|
                old(self).becomes(
                    *final(self),
                    r,
                    #[trigger] step_spec::<M>(old(self)@, old(self).has_syscall(), reply),
                ),
            calls_host::<M>(old(self)@) && old(self).has_syscall() ==> exists|
                args: [i32; SYSCALL_ARGS],
                handed: &mut M,
                result: Result<i32, i32>,
            |
                {
                    &&& #[trigger] System::answers(
                        old(self).config.syscall_fn->Some_0,
                        old(self)@.regs,
                        args,
                        handed,
                        result,
                    )
                    &&& handed@ == old(self)@.memory
                    &&& final(handed)@ == final(self)@.memory
                    &&& final(self)@.regs == System::returned_spec(old(self)@.regs, result)
                },
            final(self).wf(),
            r != Ok::<bool, EmbiveError>(true) ==> final(self)@ == old(self)@,
            r != Err::<bool, EmbiveError>(EmbiveError::InstructionLimitReached),
            old(self)@.regs[0] == 0 ==> final(self)@.regs[0] == 0,
            old(self)@.pc % 2 == 0 ==> final(self)@.pc % 2 == 0,
    {
        let ghost pre = *self;
        let bytes: [u8; 4] = match self.memory.load::<4>(self.program_counter) {
            Ok(bytes) => bytes,
            Err(e) => {
                proof {
                    let any = HostReply { result: Ok::<i32, i32>(0), memory: pre@.memory };
                    assert(pre.becomes(*self, Err(e), step_spec::<M>(pre@, pre.has_syscall(), any)));
                }
                return Err(e);
            },
        };
        let r = decode_execute(self, word_from_bytes(bytes));
        proof {
            let reply = choose|reply: HostReply<M::V>|
                pre.becomes(
                    *self,
                    r,
                    #[trigger] execute_spec::<M>(word_of(bytes@), pre@, pre.has_syscall(), reply),
                );
            assert(pre.becomes(*self, r, step_spec::<M>(pre@, pre.has_syscall(), reply)));
            lemma_step_keeps_invariants::<M>(pre@, pre.has_syscall(), reply);
        }
        r
    }

    /// Steps until the program halts, traps, or has used up its budget.
    ///
    /// Returns `Ok(())` where the program halted on an EBREAK, with the
    /// program counter at that instruction. Returns
    /// `Err(InstructionLimitReached)` where it executed as many
    /// instructions as the budget of the options allows, each of which
    /// asked for the next: the engine has then yielded, and another `run`
    /// resumes it. Returns any other error where an instruction trapped,
    /// with the engine as it was before that instruction.
    pub fn run(&mut self) -> (r: Result<(), EmbiveError>)
        requires
            old(self).wf(),
        ensures
            final(self).wf(),
            final(self).config == old(self).config,
            exists|steps: nat, reply: HostReply<M::V>|
                run_spec::<M>(
                    old(self)@,
                    old(self).has_syscall(),
                    old(self).config.budget(),
                    steps,
                    reply,
                    final(self)@,
                    r,
                ),
            old(self)@.regs[0] == 0 ==> final(self)@.regs[0] == 0,
            old(self)@.pc % 2 == 0 ==> final(self)@.pc % 2 == 0,
    {
        let limit: u64 = match self.config.instruction_limit {
            Some(limit) => limit as u64,
            None => u64::MAX,
        };
        let ghost any = HostReply { result: Ok::<i32, i32>(0), memory: self@.memory };
        let ghost sys = self.has_syscall();
        let mut done: u64 = 0;
        while done < limit
            invariant
                self.wf(),
                self.config == old(self).config,
                sys == old(self).has_syscall(),
                limit == old(self).config.budget(),
                done <= limit,
                reaches::<M>(old(self)@, self@, sys, done as nat),
                old(self)@.regs[0] == 0 ==> self@.regs[0] == 0,
                old(self)@.pc % 2 == 0 ==> self@.pc % 2 == 0,
            decreases limit - done,
        {
            let ghost before = *self;
            let r = self.step();
            let ghost reply = choose|reply: HostReply<M::V>|
                before.becomes(*self, r, #[trigger] step_spec::<M>(before@, sys, reply));
            match r {
                Ok(true) => {
                    done += 1;
                    proof {
                        lemma_reaches_one_more::<M>(
                            old(self)@,
                            before@,
                            self@,
                            sys,
                            (done - 1) as nat,
                            reply,
                        );
                    }
                },
                Ok(false) => {
                    assert(run_spec::<M>(
                        old(self)@,
                        sys,
                        limit as nat,
                        done as nat,
                        reply,
                        self@,
                        Ok(()),
                    ));
                    return Ok(());
                },
                Err(e) => {
                    assert(run_spec::<M>(
                        old(self)@,
                        sys,
                        limit as nat,
                        done as nat,
                        reply,
                        self@,
                        Err(e),
                    ));
                    return Err(e);
                },
            }
        }
        assert(run_spec::<M>(
            old(self)@,
            sys,
            limit as nat,
            done as nat,
            any,
            self@,
            Err(EmbiveError::InstructionLimitReached),
        ));
        Err(EmbiveError::InstructionLimitReached)
    }
}

/// A step that asks for the next one extends what is reached by one step.
pub proof fn lemma_reaches_one_more<M: Memory>(
    pre: State<M::V>,
    mid: State<M::V>,
    post: State<M::V>,
    has_syscall: bool,
    steps: nat,
    reply: HostReply<M::V>,
)
    requires
        reaches::<M>(pre, mid, has_syscall, steps),
        step_spec::<M>(mid, has_syscall, reply) == (Outcome { state: post, result: Ok(true) }),
    ensures
        reaches::<M>(pre, post, has_syscall, steps + 1),
{
    let more = steps + 1;
    assert((more - 1) as nat == steps);
    assert(reaches::<M>(pre, mid, has_syscall, (more - 1) as nat));
    assert(reaches::<M>(pre, post, has_syscall, more));
}

/// Every step is orderly, whatever the instruction and whatever the host
/// replies: see [`orderly`]. And a step that does not trap found its
/// instruction in memory, at the program counter.
pub proof fn lemma_step_keeps_invariants<M: Memory>(
    pre: State<M::V>,
    has_syscall: bool,
    reply: HostReply<M::V>,
)
    requires
        pre.regs.len() == 32,
    ensures
        orderly(pre, step_spec::<M>(pre, has_syscall, reply)),
        step_spec::<M>(pre, has_syscall, reply).result is Ok ==> M::load_spec(
            pre.memory,
            pre.pc,
            4,
        ) is Some,
{
    if let Some(bytes) = M::load_spec(pre.memory, pre.pc, 4) {
        lemma_execute_orderly::<M>(word_of(bytes), pre, has_syscall, reply);
    }
}

/// What holds after any number of steps, whatever the program and whatever
/// the host replies: if x0 was zero it is zero, and if the program counter
/// was even it is even.
pub proof fn lemma_reaches_keeps_invariants<M: Memory>(
    pre: State<M::V>,
    post: State<M::V>,
    has_syscall: bool,
    steps: nat,
)
    requires
        pre.regs.len() == 32,
        reaches::<M>(pre, post, has_syscall, steps),
    ensures
        post.regs.len() == 32,
        pre.regs[0] == 0 ==> post.regs[0] == 0,
        pre.pc % 2 == 0 ==> post.pc % 2 == 0,
    decreases steps,
{
    if steps > 0 {
        let (mid, reply) = choose|mid: State<M::V>, reply: HostReply<M::V>|
            reaches::<M>(pre, mid, has_syscall, (steps - 1) as nat) && #[trigger] step_spec::<M>(
                mid,
                has_syscall,
                reply,
            ) == (Outcome { state: post, result: Ok(true) });
        lemma_reaches_keeps_invariants::<M>(pre, mid, has_syscall, (steps - 1) as nat);
        lemma_step_keeps_invariants::<M>(mid, has_syscall, reply);
    }
}

/// Code is read-only, whatever the program: as long as the host has no
/// system-call function, no number of steps changes a byte of the code of a
/// memory made of two slices, and so every load from the code region gives
/// the bytes that the memory was made with.
pub proof fn lemma_code_survives<'a>(
    pre: State<crate::memory::Regions>,
    post: State<crate::memory::Regions>,
    steps: nat,
)
    requires
        pre.regs.len() == 32,
        reaches::<crate::memory::SliceMemory<'a>>(pre, post, false, steps),
    ensures
        post.memory.code == pre.memory.code,
    decreases steps,
{
    if steps > 0 {
        let (mid, reply) = choose|
            mid: State<crate::memory::Regions>,
            reply: HostReply<crate::memory::Regions>,
        |
            reaches::<crate::memory::SliceMemory<'a>>(pre, mid, false, (steps - 1) as nat)
                && #[trigger] step_spec::<crate::memory::SliceMemory<'a>>(mid, false, reply) == (
            Outcome { state: post, result: Ok(true) });
        lemma_code_survives(pre, mid, (steps - 1) as nat);
        lemma_reaches_keeps_invariants::<crate::memory::SliceMemory<'a>>(
            pre,
            mid,
            false,
            (steps - 1) as nat,
        );
        let bytes = mid.memory.load(mid.pc, 4)->Some_0;
        lemma_step_keeps_invariants::<crate::memory::SliceMemory<'a>>(mid, false, reply);
        lemma_execute_orderly::<crate::memory::SliceMemory<'a>>(word_of(bytes), mid, false, reply);
    }
}

} // verus!
