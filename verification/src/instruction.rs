//! The instructions: one type per opcode, each decoded from a word and
//! executed on an engine.
use crate::engine::{Engine, HostReply, Outcome, State, SYSCALL_ARGS};
use crate::error::EmbiveError;
use crate::instruction::auipc::Auipc;
use crate::instruction::branch::Branch;
use crate::instruction::format::{
    funct3_of, imm_b_of, imm_i_of, imm_j_of, lemma_branch_offset_even, lemma_jump_offset_even,
    lemma_register_fields_in_range, opcode, opcode_of,
};
use crate::instruction::jal::Jal;
use crate::instruction::jalr::Jalr;
use crate::instruction::load::Load;
use crate::instruction::lui::Lui;
use crate::instruction::misc_mem::MiscMem;
use crate::instruction::op::Op;
use crate::instruction::op_imm::OpImm;
use crate::instruction::store::Store;
use crate::instruction::system::System;
use crate::memory::Memory;
use crate::register::REGISTER_COUNT;
use vstd::prelude::*;

pub mod alu;
pub mod auipc;
pub mod branch;
pub mod format;
pub mod jal;
pub mod jalr;
pub mod load;
pub mod lui;
pub mod misc_mem;
pub mod op;
pub mod op_imm;
pub mod store;
pub mod system;

verus! {

/// Size of an instruction in bytes.
pub const INSTRUCTION_SIZE: u32 = 4;

/// Opcode of the loads.
pub const LOAD_OPCODE: u8 = 0x03;

/// Opcode of FENCE and FENCE.I.
pub const MISC_MEM_OPCODE: u8 = 0x0F;

/// Opcode of the register-immediate operations.
pub const OP_IMM_OPCODE: u8 = 0x13;

/// Opcode of AUIPC.
pub const AUIPC_OPCODE: u8 = 0x17;

/// Opcode of the stores.
pub const STORE_OPCODE: u8 = 0x23;

/// Opcode of the register-register operations.
pub const OP_OPCODE: u8 = 0x33;

/// Opcode of LUI.
pub const LUI_OPCODE: u8 = 0x37;

/// Opcode of the conditional branches.
pub const BRANCH_OPCODE: u8 = 0x63;

/// Opcode of JALR.
pub const JALR_OPCODE: u8 = 0x67;

/// Opcode of JAL.
pub const JAL_OPCODE: u8 = 0x6F;

/// Opcode of ECALL and EBREAK.
pub const SYSTEM_OPCODE: u8 = 0x73;

/// The address `offset` bytes after `pc`, wrapping round the 32-bit address
/// space.
pub open spec fn pc_offset(pc: u32, offset: int) -> u32 {
    ((pc + offset) % 0x1_0000_0000) as u32
}

/// The outcome of an instruction that traps with `error`: nothing changes.
pub open spec fn trap<V>(pre: State<V>, error: EmbiveError) -> Outcome<V> {
    Outcome { state: pre, result: Err(error) }
}

/// The registers after `value` was written to `rd`. A write to x0 is
/// dropped.
pub open spec fn write_register(regs: Seq<i32>, rd: usize, value: i32) -> Seq<i32> {
    if rd == 0 {
        regs
    } else {
        regs.update(rd as int, value)
    }
}

/// The outcome of an instruction that writes `value` to `rd` and goes on at
/// `next`: it traps with `InvalidRegister` if `rd` names no register, and
/// else continues with `rd` written, unless `rd` is x0.
pub open spec fn retire<V>(pre: State<V>, rd: usize, value: i32, next: u32) -> Outcome<V> {
    if rd >= REGISTER_COUNT {
        trap(pre, EmbiveError::InvalidRegister)
    } else {
        Outcome {
            state: State {
                pc: next,
                regs: write_register(pre.regs, rd, value),
                memory: pre.memory,
            },
            result: Ok(true),
        }
    }
}

/// What the instruction word `data` does to `pre`.
///
/// The opcode, bits 6 to 0 of the word, selects the instruction type, which
/// decodes the word and says what it does. A word with any other opcode
/// traps with `InvalidInstruction`. Only ECALL looks at `has_syscall` and
/// at `reply`, which stand for the system-call function of the host and for
/// what it came back with.
///
/// The definition is opaque, so that a proof about many steps does not take
/// every instruction apart; `reveal(execute_spec)` opens it.
#[verifier::opaque]
pub open spec fn execute_spec<M: Memory>(
    data: u32,
    pre: State<M::V>,
    has_syscall: bool,
    reply: HostReply<M::V>,
) -> Outcome<M::V> {
    let opcode = opcode_of(data);
    if opcode == LOAD_OPCODE {
        Load::decode_spec(data).execute_spec::<M>(pre)
    } else if opcode == MISC_MEM_OPCODE {
        MiscMem::decode_spec(data).execute_spec(pre)
    } else if opcode == OP_IMM_OPCODE {
        OpImm::decode_spec(data).execute_spec(pre)
    } else if opcode == AUIPC_OPCODE {
        Auipc::decode_spec(data).execute_spec(pre)
    } else if opcode == STORE_OPCODE {
        Store::decode_spec(data).execute_spec::<M>(pre)
    } else if opcode == OP_OPCODE {
        Op::decode_spec(data).execute_spec(pre)
    } else if opcode == LUI_OPCODE {
        Lui::decode_spec(data).execute_spec(pre)
    } else if opcode == BRANCH_OPCODE {
        Branch::decode_spec(data).execute_spec(pre)
    } else if opcode == JALR_OPCODE {
        Jalr::decode_spec(data).execute_spec(pre)
    } else if opcode == JAL_OPCODE {
        Jal::decode_spec(data).execute_spec(pre)
    } else if opcode == SYSTEM_OPCODE {
        System::decode_spec(data).execute_spec(pre, has_syscall, reply)
    } else {
        trap(pre, EmbiveError::InvalidInstruction)
    }
}

/// Decodes the instruction word `data` and executes it on `engine`.
///
/// The engine ends up as [`execute_spec`] says, for what the system-call
/// function of the host came back with if the word is an ECALL, and
/// whatever `reply` is if it is not. If the word is an ECALL and the host
/// has a system-call function, that function was called with the number
/// and the arguments from the registers and with the memory of the engine,
/// and what the engine holds afterwards is what the contract of the
/// function allows.
pub fn decode_execute<M: Memory, F: Fn(i32, &[i32; SYSCALL_ARGS], &mut M) -> Result<i32, i32>>(
    engine: &mut Engine<'_, M, F>,
    data: u32,
) -> (r: Result<bool, EmbiveError>)
    requires
        old(engine).wf(),
    ensures
        exists|reply: HostReply<M::V>|
            old(engine).becomes(
                *final(engine),
                r,
                #[trigger] execute_spec::<M>(data, old(engine)@, old(engine).has_syscall(), reply),
            ),
        is_ecall(data) && old(engine).has_syscall() ==> exists|
            args: [i32; SYSCALL_ARGS],
            handed: &mut M,
            result: Result<i32, i32>,
        |
            {
                &&& #[trigger] System::answers(
                    old(engine).config.syscall_fn->Some_0,
                    old(engine)@.regs,
                    args,
                    handed,
                    result,
                )
                &&& handed@ == old(engine)@.memory
                &&& final(handed)@ == final(engine)@.memory
                &&& final(engine)@.regs == System::returned_spec(old(engine)@.regs, result)
            },
{
    let ghost pre = *engine;
    let ghost any = HostReply { result: Ok::<i32, i32>(0), memory: engine@.memory };
    proof {
        reveal(execute_spec);
    }
    let code: u8 = opcode(data);
    if code == SYSTEM_OPCODE {
        let r = System::decode(data).execute(engine);
        proof {
            let reply = choose|reply: HostReply<M::V>|
                pre.becomes(
                    *engine,
                    r,
                    #[trigger] System::decode_spec(data).execute_spec(
                        pre@,
                        pre.has_syscall(),
                        reply,
                    ),
                );
            assert(pre.becomes(
                *engine,
                r,
                execute_spec::<M>(data, pre@, pre.has_syscall(), reply),
            ));
        }
        return r;
    }
    let r = if code == LOAD_OPCODE {
        Load::decode(data).execute(engine)
    } else if code == MISC_MEM_OPCODE {
        MiscMem::decode(data).execute(engine)
    } else if code == OP_IMM_OPCODE {
        OpImm::decode(data).execute(engine)
    } else if code == AUIPC_OPCODE {
        Auipc::decode(data).execute(engine)
    } else if code == STORE_OPCODE {
        Store::decode(data).execute(engine)
    } else if code == OP_OPCODE {
        Op::decode(data).execute(engine)
    } else if code == LUI_OPCODE {
        Lui::decode(data).execute(engine)
    } else if code == BRANCH_OPCODE {
        Branch::decode(data).execute(engine)
    } else if code == JALR_OPCODE {
        Jalr::decode(data).execute(engine)
    } else if code == JAL_OPCODE {
        Jal::decode(data).execute(engine)
    } else {
        Err(EmbiveError::InvalidInstruction)
    };
    proof {
        assert(pre.becomes(*engine, r, execute_spec::<M>(data, pre@, pre.has_syscall(), any)));
    }
    r
}

/// `out` is the outcome of an orderly instruction on `pre`.
///
/// An instruction that does not ask for the next one, because it halts the
/// program or because it traps, leaves the state as it was, and no
/// instruction reports that a limit was reached. There are 32 registers
/// before and after. If x0 was zero it is zero, and if the program counter
/// was even it is even.
pub open spec fn orderly<V>(pre: State<V>, out: Outcome<V>) -> bool {
    &&& out.result != Ok::<bool, EmbiveError>(true) ==> out.state == pre
    &&& out.result != Err::<bool, EmbiveError>(EmbiveError::InstructionLimitReached)
    &&& out.state.regs.len() == 32
    &&& pre.regs[0] == 0 ==> out.state.regs[0] == 0
    &&& pre.pc % 2 == 0 ==> out.state.pc % 2 == 0
}

/// `after` is `before` or what a store makes of `before`.
pub open spec fn stored<M: Memory>(before: M::V, after: M::V) -> bool {
    after == before || exists|address: u32, data: Seq<u8>| #[trigger]
        M::store_spec(before, address, data) == Some(after)
}

/// `out` is the outcome of an instruction on `pre` that neither jumps nor
/// halts: where it asks for the next instruction, that is the one four
/// bytes further on.
pub open spec fn sequential<V>(pre: State<V>, out: Outcome<V>) -> bool {
    &&& out.result != Ok::<bool, EmbiveError>(false)
    &&& out.result == Ok::<bool, EmbiveError>(true) ==> out.state.pc == pc_offset(
        pre.pc,
        INSTRUCTION_SIZE as int,
    )
}

proof fn lemma_orderly_load<M: Memory>(inst: Load, pre: State<M::V>)
    requires
        pre.regs.len() == 32,
    ensures
        orderly(pre, inst.execute_spec::<M>(pre)),
        sequential(pre, inst.execute_spec::<M>(pre)),
        inst.execute_spec::<M>(pre).state.memory == pre.memory,
{
    reveal(Load::execute_spec);
}

proof fn lemma_orderly_store<M: Memory>(inst: Store, pre: State<M::V>)
    requires
        pre.regs.len() == 32,
    ensures
        orderly(pre, inst.execute_spec::<M>(pre)),
        sequential(pre, inst.execute_spec::<M>(pre)),
        stored::<M>(pre.memory, inst.execute_spec::<M>(pre).state.memory),
{
    reveal(Store::execute_spec);
}

proof fn lemma_orderly_op<V>(inst: Op, pre: State<V>)
    requires
        pre.regs.len() == 32,
    ensures
        orderly(pre, inst.execute_spec(pre)),
        sequential(pre, inst.execute_spec(pre)),
        inst.execute_spec(pre).state.memory == pre.memory,
{
    reveal(Op::execute_spec);
}

proof fn lemma_orderly_op_imm<V>(inst: OpImm, pre: State<V>)
    requires
        pre.regs.len() == 32,
    ensures
        orderly(pre, inst.execute_spec(pre)),
        sequential(pre, inst.execute_spec(pre)),
        inst.execute_spec(pre).state.memory == pre.memory,
{
    reveal(OpImm::execute_spec);
}

proof fn lemma_orderly_upper<V>(lui: Lui, auipc: Auipc, fence: MiscMem, pre: State<V>)
    requires
        pre.regs.len() == 32,
    ensures
        orderly(pre, lui.execute_spec(pre)),
        orderly(pre, auipc.execute_spec(pre)),
        orderly(pre, fence.execute_spec(pre)),
        sequential(pre, lui.execute_spec(pre)),
        sequential(pre, auipc.execute_spec(pre)),
        sequential(pre, fence.execute_spec(pre)),
        lui.execute_spec(pre).state.memory == pre.memory,
        auipc.execute_spec(pre).state.memory == pre.memory,
        fence.execute_spec(pre).state.memory == pre.memory,
{
    reveal(Lui::execute_spec);
    reveal(Auipc::execute_spec);
    reveal(MiscMem::execute_spec);
}

proof fn lemma_orderly_branch<V>(branch: Branch, pre: State<V>)
    requires
        pre.regs.len() == 32,
        branch.ty.imm % 2 == 0,
    ensures
        orderly(pre, branch.execute_spec(pre)),
        branch.execute_spec(pre).result != Ok::<bool, EmbiveError>(false),
        branch.execute_spec(pre).state.memory == pre.memory,
        branch.execute_spec(pre).result == Ok::<bool, EmbiveError>(true) ==> {
            ||| branch.execute_spec(pre).state.pc == pc_offset(pre.pc, INSTRUCTION_SIZE as int)
            ||| branch.execute_spec(pre).state.pc == pc_offset(pre.pc, branch.ty.imm as int)
        },
{
    reveal(Branch::execute_spec);
}

proof fn lemma_orderly_jal<V>(jal: Jal, pre: State<V>)
    requires
        pre.regs.len() == 32,
        jal.ty.imm % 2 == 0,
    ensures
        orderly(pre, jal.execute_spec(pre)),
        jal.execute_spec(pre).result != Ok::<bool, EmbiveError>(false),
        jal.execute_spec(pre).state.memory == pre.memory,
        jal.execute_spec(pre).result == Ok::<bool, EmbiveError>(true) ==> jal.execute_spec(
            pre,
        ).state.pc == pc_offset(pre.pc, jal.ty.imm as int),
{
    reveal(Jal::execute_spec);
}

proof fn lemma_orderly_jalr<V>(jalr: Jalr, pre: State<V>)
    requires
        pre.regs.len() == 32,
    ensures
        orderly(pre, jalr.execute_spec(pre)),
        jalr.execute_spec(pre).result != Ok::<bool, EmbiveError>(false),
        jalr.execute_spec(pre).state.memory == pre.memory,
        jalr.execute_spec(pre).result == Ok::<bool, EmbiveError>(true) ==> jalr.execute_spec(
            pre,
        ).state.pc % 2 == 0,
{
    reveal(Jalr::execute_spec);
}

proof fn lemma_orderly_system<V>(
    inst: System,
    pre: State<V>,
    has_syscall: bool,
    reply: HostReply<V>,
)
    requires
        pre.regs.len() == 32,
    ensures
        orderly(pre, inst.execute_spec(pre, has_syscall, reply)),
        inst.execute_spec(pre, has_syscall, reply).result == Ok::<bool, EmbiveError>(true)
            ==> inst.execute_spec(pre, has_syscall, reply).state.pc == pc_offset(
            pre.pc,
            INSTRUCTION_SIZE as int,
        ),
        inst.execute_spec(pre, has_syscall, reply).result == Ok::<bool, EmbiveError>(false) <==> (
        inst.ty.funct3 == 0 && inst.ty.imm == 1),
        inst.execute_spec(pre, has_syscall, reply).state.memory == (if inst.calls_host()
            && has_syscall {
            reply.memory
        } else {
            pre.memory
        }),
{
    reveal(System::execute_spec);
}

/// No instruction that was decoded from a word traps with
/// `InvalidRegister`: the register fields of a word are five bits wide.
pub proof fn lemma_decoded_registers_are_valid<M: Memory>(
    data: u32,
    pre: State<M::V>,
    has_syscall: bool,
    reply: HostReply<M::V>,
)
    requires
        pre.regs.len() == 32,
    ensures
        execute_spec::<M>(data, pre, has_syscall, reply).result != Err::<bool, EmbiveError>(
            EmbiveError::InvalidRegister,
        ),
{
    reveal(execute_spec);
    reveal(Load::execute_spec);
    reveal(MiscMem::execute_spec);
    reveal(OpImm::execute_spec);
    reveal(Auipc::execute_spec);
    reveal(Store::execute_spec);
    reveal(Op::execute_spec);
    reveal(Lui::execute_spec);
    reveal(Branch::execute_spec);
    reveal(Jalr::execute_spec);
    reveal(Jal::execute_spec);
    reveal(System::execute_spec);
    lemma_register_fields_in_range(data);
}

/// Whether the word `data` is an ECALL.
pub open spec fn is_ecall(data: u32) -> bool {
    &&& opcode_of(data) == SYSTEM_OPCODE
    &&& funct3_of(data) == 0
    &&& imm_i_of(data) == 0
}

/// Whether the word `data` is an EBREAK.
pub open spec fn is_ebreak(data: u32) -> bool {
    &&& opcode_of(data) == SYSTEM_OPCODE
    &&& funct3_of(data) == 0
    &&& imm_i_of(data) == 1
}

/// Every instruction word is orderly, whatever the state it is executed in
/// and whatever the host replies: see [`orderly`].
///
/// And every instruction word does one of three things. It traps. Or it
/// halts the program, which only EBREAK does. Or it asks for the next
/// instruction: a branch names the one after it or the one at its offset, a
/// jump names its target, and every other instruction names the one four
/// bytes further on.
pub proof fn lemma_execute_orderly<M: Memory>(
    data: u32,
    pre: State<M::V>,
    has_syscall: bool,
    reply: HostReply<M::V>,
)
    requires
        pre.regs.len() == 32,
    ensures
        orderly(pre, execute_spec::<M>(data, pre, has_syscall, reply)),
        execute_spec::<M>(data, pre, has_syscall, reply).result == Ok::<bool, EmbiveError>(false)
            <==> is_ebreak(data),
        execute_spec::<M>(data, pre, has_syscall, reply).result == Ok::<bool, EmbiveError>(true)
            ==> {
            let next = execute_spec::<M>(data, pre, has_syscall, reply).state.pc;
            if opcode_of(data) == BRANCH_OPCODE {
                next == pc_offset(pre.pc, INSTRUCTION_SIZE as int) || next == pc_offset(
                    pre.pc,
                    imm_b_of(data) as int,
                )
            } else if opcode_of(data) == JAL_OPCODE {
                next == pc_offset(pre.pc, imm_j_of(data) as int)
            } else if opcode_of(data) == JALR_OPCODE {
                next % 2 == 0
            } else {
                next == pc_offset(pre.pc, INSTRUCTION_SIZE as int)
            }
        },
        is_ecall(data) && has_syscall ==> execute_spec::<M>(
            data,
            pre,
            has_syscall,
            reply,
        ).state.memory == reply.memory,
        !(is_ecall(data) && has_syscall) ==> stored::<M>(
            pre.memory,
            execute_spec::<M>(data, pre, has_syscall, reply).state.memory,
        ),
{
    reveal(execute_spec);
    lemma_branch_offset_even(data);
    lemma_jump_offset_even(data);
    lemma_orderly_load::<M>(Load::decode_spec(data), pre);
    lemma_orderly_store::<M>(Store::decode_spec(data), pre);
    lemma_orderly_op(Op::decode_spec(data), pre);
    lemma_orderly_op_imm(OpImm::decode_spec(data), pre);
    lemma_orderly_upper(
        Lui::decode_spec(data),
        Auipc::decode_spec(data),
        MiscMem::decode_spec(data),
        pre,
    );
    lemma_orderly_branch(Branch::decode_spec(data), pre);
    lemma_orderly_jal(Jal::decode_spec(data), pre);
    lemma_orderly_jalr(Jalr::decode_spec(data), pre);
    lemma_orderly_system(System::decode_spec(data), pre, has_syscall, reply);
}

} // verus!
