use embive::engine::{Config, Engine, SyscallFn};
use embive::error::EmbiveError;
use embive::instruction::branch::Branch;
use embive::instruction::format::{TypeB, TypeI, TypeJ, TypeR, TypeS, TypeU};
use embive::instruction::jal::Jal;
use embive::instruction::jalr::Jalr;
use embive::instruction::load::Load;
use embive::instruction::lui::Lui;
use embive::instruction::misc_mem::MiscMem;
use embive::instruction::op::Op;
use embive::instruction::op_imm::OpImm;
use embive::instruction::store::Store;
use embive::instruction::system::System;
use embive::instruction::INSTRUCTION_SIZE;
use embive::memory::{SliceMemory, RAM_OFFSET};
use embive::register::Registers;

#[test]
fn jalr_clears_the_low_bit() {
    let mut memory = SliceMemory::new(&[], &mut []);
    let mut engine =
        Engine::new(&mut memory, Config::<SyscallFn<SliceMemory>>::default()).unwrap();
    engine.program_counter = 0x20;
    *engine.registers.get_mut(2).unwrap() = 0x100;
    let jalr = Jalr {
        ty: TypeI {
            rd: 1,
            rs1: 2,
            imm: 0x7,
            funct3: 0,
        },
    };
    assert_eq!(jalr.execute(&mut engine), Ok(true));
    assert_eq!(engine.program_counter, 0x106);
    assert_eq!(engine.registers.get(1), Ok(0x20 + INSTRUCTION_SIZE as i32));
    assert_eq!(engine.registers.get(2), Ok(0x100));
}

#[test]
fn jalr_reads_the_base_before_it_links() {
    let mut memory = SliceMemory::new(&[], &mut []);
    let mut engine =
        Engine::new(&mut memory, Config::<SyscallFn<SliceMemory>>::default()).unwrap();
    engine.program_counter = 0x40;
    *engine.registers.get_mut(1).unwrap() = 0x200;
    let jalr = Jalr {
        ty: TypeI {
            rd: 1,
            rs1: 1,
            imm: -4,
            funct3: 0,
        },
    };
    assert_eq!(jalr.execute(&mut engine), Ok(true));
    assert_eq!(engine.program_counter, 0x1fc);
    assert_eq!(engine.registers.get(1), Ok(0x44));
}

#[test]
fn jal_links_and_jumps() {
    let mut memory = SliceMemory::new(&[], &mut []);
    let mut engine =
        Engine::new(&mut memory, Config::<SyscallFn<SliceMemory>>::default()).unwrap();
    engine.program_counter = 0x1000;
    let jal = Jal {
        ty: TypeJ { rd: 1, imm: -0x800 },
    };
    assert_eq!(jal.execute(&mut engine), Ok(true));
    assert_eq!(engine.program_counter, 0x800);
    assert_eq!(engine.registers.get(1), Ok(0x1004));
    let jal = Jal {
        ty: TypeJ { rd: 0, imm: 0x10 },
    };
    assert_eq!(jal.execute(&mut engine), Ok(true));
    assert_eq!(engine.program_counter, 0x810);
    assert_eq!(engine.registers.get(0), Ok(0));
}

#[test]
fn lui_writes_the_immediate() {
    let mut memory = SliceMemory::new(&[], &mut []);
    let mut engine =
        Engine::new(&mut memory, Config::<SyscallFn<SliceMemory>>::default()).unwrap();
    let lui = Lui {
        ty: TypeU {
            rd: 4,
            imm: -0x8000_0000,
        },
    };
    assert_eq!(lui.execute(&mut engine), Ok(true));
    assert_eq!(engine.registers.get(4), Ok(i32::MIN));
    assert_eq!(engine.program_counter, 4);
    assert_eq!(Lui::decode(0x1234_52b7).ty, TypeU { rd: 5, imm: 0x1234_5000 });
}

#[test]
fn div_of_min_by_minus_one() {
    let mut memory = SliceMemory::new(&[], &mut []);
    let mut engine =
        Engine::new(&mut memory, Config::<SyscallFn<SliceMemory>>::default()).unwrap();
    *engine.registers.get_mut(1).unwrap() = i32::MIN;
    *engine.registers.get_mut(2).unwrap() = -1;
    let div = Op {
        ty: TypeR {
            rd: 3,
            rs1: 1,
            rs2: 2,
            funct3: 4,
            funct7: 1,
        },
    };
    assert_eq!(div.execute(&mut engine), Ok(true));
    assert_eq!(engine.registers.get(3), Ok(i32::MIN));
    let rem = Op {
        ty: TypeR {
            rd: 4,
            rs1: 1,
            rs2: 2,
            funct3: 6,
            funct7: 1,
        },
    };
    assert_eq!(rem.execute(&mut engine), Ok(true));
    assert_eq!(engine.registers.get(4), Ok(0));
    assert_eq!(engine.program_counter, 8);
}

#[test]
fn division_by_zero_gives_the_sentinels() {
    for a in [0, 1, -1, 7, -7, i32::MAX, i32::MIN] {
        assert_eq!(Op::value(1, 4, a, 0), Some(-1));
        assert_eq!(Op::value(1, 5, a, 0), Some(-1));
        assert_eq!(Op::value(1, 6, a, 0), Some(a));
        assert_eq!(Op::value(1, 7, a, 0), Some(a));
    }
}

#[test]
fn division_rounds_towards_zero() {
    assert_eq!(Op::value(1, 4, 7, 2), Some(3));
    assert_eq!(Op::value(1, 4, -7, 2), Some(-3));
    assert_eq!(Op::value(1, 4, 7, -2), Some(-3));
    assert_eq!(Op::value(1, 4, -7, -2), Some(3));
    assert_eq!(Op::value(1, 6, 7, 2), Some(1));
    assert_eq!(Op::value(1, 6, -7, 2), Some(-1));
    assert_eq!(Op::value(1, 6, 7, -2), Some(1));
    assert_eq!(Op::value(1, 6, -7, -2), Some(-1));
    assert_eq!(Op::value(1, 4, i32::MIN, 1), Some(i32::MIN));
    assert_eq!(Op::value(1, 4, i32::MIN, 2), Some(-0x4000_0000));
    assert_eq!(Op::value(1, 4, i32::MAX, -1), Some(-i32::MAX));
    assert_eq!(Op::value(1, 6, i32::MIN, 3), Some(-2));
    // Unsigned: -7 is 0xfffffff9.
    assert_eq!(Op::value(1, 5, -7, 2), Some(0x7fff_fffc));
    assert_eq!(Op::value(1, 7, -7, 2), Some(1));
    assert_eq!(Op::value(1, 5, 7, -2), Some(0));
    assert_eq!(Op::value(1, 7, 7, -2), Some(7));
    assert_eq!(Op::value(1, 5, -1, 1), Some(-1));
    assert_eq!(Op::value(1, 5, i32::MIN, -1), Some(0));
    assert_eq!(Op::value(1, 7, i32::MIN, -1), Some(i32::MIN));
}

#[test]
fn multiplication_gives_both_halves() {
    assert_eq!(Op::value(1, 0, 6, 7), Some(42));
    assert_eq!(Op::value(1, 0, 0x10000, 0x10000), Some(0));
    assert_eq!(Op::value(1, 0, i32::MIN, -1), Some(i32::MIN));
    assert_eq!(Op::value(1, 0, 0x7fff_ffff, 2), Some(-2));
    // mulh
    assert_eq!(Op::value(1, 1, 0x10000, 0x10000), Some(1));
    assert_eq!(Op::value(1, 1, -1, 1), Some(-1));
    assert_eq!(Op::value(1, 1, -1, -1), Some(0));
    assert_eq!(Op::value(1, 1, i32::MIN, i32::MIN), Some(0x4000_0000));
    assert_eq!(Op::value(1, 1, i32::MIN, i32::MAX), Some(-0x4000_0000));
    assert_eq!(Op::value(1, 1, i32::MAX, i32::MAX), Some(0x3fff_ffff));
    // mulhsu: the second operand is unsigned.
    assert_eq!(Op::value(1, 2, -1, -1), Some(-1));
    assert_eq!(Op::value(1, 2, 1, -1), Some(0));
    assert_eq!(Op::value(1, 2, 2, -1), Some(1));
    assert_eq!(Op::value(1, 2, i32::MIN, -1), Some(i32::MIN));
    assert_eq!(Op::value(1, 2, i32::MAX, -1), Some(0x7fff_fffe));
    // mulhu
    assert_eq!(Op::value(1, 3, -1, -1), Some(-2));
    assert_eq!(Op::value(1, 3, -1, 1), Some(0));
    assert_eq!(Op::value(1, 3, i32::MIN, 2), Some(1));
    assert_eq!(Op::value(1, 3, i32::MIN, i32::MIN), Some(0x4000_0000));
}

#[test]
fn arithmetic_wraps() {
    assert_eq!(Op::value(0, 0, i32::MAX, 1), Some(i32::MIN));
    assert_eq!(Op::value(0, 0, -5, 3), Some(-2));
    assert_eq!(Op::value(0x20, 0, i32::MIN, 1), Some(i32::MAX));
    assert_eq!(Op::value(0x20, 0, 3, 5), Some(-2));
    assert_eq!(Op::value(0, 2, -1, 0), Some(1));
    assert_eq!(Op::value(0, 2, 0, -1), Some(0));
    assert_eq!(Op::value(0, 3, -1, 0), Some(0));
    assert_eq!(Op::value(0, 3, 0, -1), Some(1));
    assert_eq!(Op::value(0, 3, 5, 5), Some(0));
    assert_eq!(Op::value(0, 4, 0b1100, 0b1010), Some(0b0110));
    assert_eq!(Op::value(0, 6, 0b1100, 0b1010), Some(0b1110));
    assert_eq!(Op::value(0, 7, 0b1100, 0b1010), Some(0b1000));
    assert_eq!(Op::value(0, 7, -1, i32::MIN), Some(i32::MIN));
}

#[test]
fn shifts_use_five_bits() {
    assert_eq!(Op::value(0, 1, 1, 31), Some(i32::MIN));
    assert_eq!(Op::value(0, 1, 3, 31), Some(i32::MIN));
    assert_eq!(Op::value(0, 1, -1, 4), Some(-16));
    assert_eq!(Op::value(0, 5, -1, 28), Some(0xf));
    assert_eq!(Op::value(0, 5, i32::MIN, 31), Some(1));
    assert_eq!(Op::value(0x20, 5, i32::MIN, 31), Some(-1));
    assert_eq!(Op::value(0x20, 5, -16, 2), Some(-4));
    assert_eq!(Op::value(0x20, 5, 16, 2), Some(4));
    for a in [1, -1, 0x1234_5678, i32::MIN, i32::MAX] {
        for amount in [32, 64, -32, 0x7fff_ffe0, i32::MIN] {
            assert_eq!(Op::value(0, 1, a, amount), Some(a));
            assert_eq!(Op::value(0, 5, a, amount), Some(a));
            assert_eq!(Op::value(0x20, 5, a, amount), Some(a));
            assert_eq!(OpImm::value(1, a, amount & 0xbff), Some(a));
        }
        assert_eq!(Op::value(0, 1, a, 33), Op::value(0, 1, a, 1));
        assert_eq!(Op::value(0, 5, a, 33), Op::value(0, 5, a, 1));
        assert_eq!(Op::value(0x20, 5, a, -1), Op::value(0x20, 5, a, 31));
        assert_eq!(OpImm::value(1, a, 32), Some(a));
        assert_eq!(OpImm::value(5, a, 32), Some(a));
        assert_eq!(OpImm::value(5, a, 0x420), Some(a));
    }
}

#[test]
fn undefined_operations_have_no_value() {
    assert_eq!(Op::value(0x20, 1, 1, 1), None);
    assert_eq!(Op::value(0x20, 7, 1, 1), None);
    assert_eq!(Op::value(0x02, 0, 1, 1), None);
    assert_eq!(Op::value(0x7f, 0, 1, 1), None);
    assert_eq!(Op::value(0, 8, 1, 1), None);
    assert_eq!(Op::value(1, 8, 1, 1), None);
    assert_eq!(OpImm::value(8, 1, 1), None);
    assert_eq!(OpImm::value(255, 1, 1), None);
    assert_eq!(Branch::taken(2, 1, 1), None);
    assert_eq!(Branch::taken(3, 1, 1), None);
    assert_eq!(Branch::taken(8, 1, 1), None);
}

#[test]
fn immediate_operations() {
    assert_eq!(OpImm::value(0, 5, -7), Some(-2));
    assert_eq!(OpImm::value(0, i32::MAX, 1), Some(i32::MIN));
    assert_eq!(OpImm::value(1, 1, 4), Some(16));
    assert_eq!(OpImm::value(2, -1, 0), Some(1));
    assert_eq!(OpImm::value(2, 0, -1), Some(0));
    assert_eq!(OpImm::value(3, 0, -1), Some(1));
    assert_eq!(OpImm::value(3, -1, 1), Some(0));
    assert_eq!(OpImm::value(4, 0b1100, -1), Some(!0b1100));
    assert_eq!(OpImm::value(5, -16, 2), Some(0x3fff_fffc));
    assert_eq!(OpImm::value(5, -16, 0x402), Some(-4));
    assert_eq!(OpImm::value(6, 0b1100, 0b1010), Some(0b1110));
    assert_eq!(OpImm::value(7, 0b1100, 0b1010), Some(0b1000));
    // srai a0, a0, 4 is 0x40455513.
    assert_eq!(
        OpImm::decode(0x4045_5513).ty,
        TypeI {
            rd: 10,
            rs1: 10,
            imm: 0x404,
            funct3: 5
        }
    );
}

#[test]
fn branches_compare_as_their_code_says() {
    assert_eq!(Branch::taken(0, 3, 3), Some(true));
    assert_eq!(Branch::taken(0, 3, 4), Some(false));
    assert_eq!(Branch::taken(1, 3, 3), Some(false));
    assert_eq!(Branch::taken(1, 3, 4), Some(true));
    assert_eq!(Branch::taken(4, -1, 0), Some(true));
    assert_eq!(Branch::taken(4, 0, -1), Some(false));
    assert_eq!(Branch::taken(4, 2, 2), Some(false));
    assert_eq!(Branch::taken(5, -1, 0), Some(false));
    assert_eq!(Branch::taken(5, 0, -1), Some(true));
    assert_eq!(Branch::taken(5, 2, 2), Some(true));
    assert_eq!(Branch::taken(6, -1, 0), Some(false));
    assert_eq!(Branch::taken(6, 0, -1), Some(true));
    assert_eq!(Branch::taken(6, 2, 2), Some(false));
    assert_eq!(Branch::taken(7, -1, 0), Some(true));
    assert_eq!(Branch::taken(7, 0, -1), Some(false));
    assert_eq!(Branch::taken(7, 2, 2), Some(true));
}

#[test]
fn branch_sets_the_program_counter() {
    let mut memory = SliceMemory::new(&[], &mut []);
    let mut engine =
        Engine::new(&mut memory, Config::<SyscallFn<SliceMemory>>::default()).unwrap();
    engine.program_counter = 0x100;
    *engine.registers.get_mut(1).unwrap() = 5;
    *engine.registers.get_mut(2).unwrap() = 6;
    let blt = Branch {
        ty: TypeB {
            rs1: 1,
            rs2: 2,
            imm: -0x10,
            funct3: 4,
        },
    };
    assert_eq!(blt.execute(&mut engine), Ok(true));
    assert_eq!(engine.program_counter, 0xf0);
    let bge = Branch {
        ty: TypeB {
            rs1: 1,
            rs2: 2,
            imm: -0x10,
            funct3: 5,
        },
    };
    assert_eq!(bge.execute(&mut engine), Ok(true));
    assert_eq!(engine.program_counter, 0xf4);
    engine.program_counter = 4;
    assert_eq!(blt.execute(&mut engine), Ok(true));
    assert_eq!(engine.program_counter, 0xffff_fff4);
    let mut expected = Registers::new();
    expected.inner[1] = 5;
    expected.inner[2] = 6;
    assert_eq!(engine.registers, expected);
}

#[test]
fn loads_extend_as_their_code_says() {
    let code = [0x80u8, 0xff, 0x7f, 0x01, 0x02];
    let mut ram = [0x81u8, 0x82, 0x83, 0x84];
    let mut memory = SliceMemory::new(&code, &mut ram);
    let mut engine =
        Engine::new(&mut memory, Config::<SyscallFn<SliceMemory>>::default()).unwrap();
    *engine.registers.get_mut(1).unwrap() = RAM_OFFSET as i32;
    let load = |funct3: u8, rs1: usize, imm: i32| Load {
        ty: TypeI {
            rd: 5,
            rs1,
            imm,
            funct3,
        },
    };
    let cases = [
        (0u8, 0usize, 0, -128),
        (0, 0, 2, 0x7f),
        (4, 0, 0, 0x80),
        (4, 0, 1, 0xff),
        (1, 0, 0, -128),
        (1, 0, 1, 0x7fff),
        (5, 0, 0, 0xff80),
        (2, 0, 0, 0x017f_ff80),
        (2, 0, 1, 0x0201_7fff),
        (0, 1, 3, 0x84u8 as i8 as i32),
        (1, 1, 2, 0x8483u16 as i16 as i32),
        (5, 1, 2, 0x8483),
        (2, 1, 0, 0x8483_8281u32 as i32),
        (4, 1, 0, 0x81),
    ];
    for (funct3, rs1, imm, expected) in cases {
        assert_eq!(load(funct3, rs1, imm).execute(&mut engine), Ok(true));
        assert_eq!(engine.registers.get(5), Ok(expected), "{} {} {}", funct3, rs1, imm);
    }
    assert_eq!(engine.program_counter, 4 * cases.len() as u32);
    // Past the end of a region, and a negative offset from the RAM base.
    for (funct3, rs1, imm) in [(2u8, 0usize, 2), (1, 0, 4), (0, 0, 5), (2, 1, 1), (0, 1, 4), (0, 1, -1)] {
        let pc = engine.program_counter;
        assert_eq!(
            load(funct3, rs1, imm).execute(&mut engine),
            Err(EmbiveError::InvalidMemory)
        );
        assert_eq!(engine.program_counter, pc);
        assert_eq!(engine.registers.get(5), Ok(0x81));
    }
}

#[test]
fn stores_write_the_low_bytes() {
    let code = [0u8; 8];
    let mut ram = [0u8; 8];
    let mut memory = SliceMemory::new(&code, &mut ram);
    let mut engine =
        Engine::new(&mut memory, Config::<SyscallFn<SliceMemory>>::default()).unwrap();
    *engine.registers.get_mut(1).unwrap() = (RAM_OFFSET + 4) as i32;
    *engine.registers.get_mut(2).unwrap() = 0x1122_3344;
    let store = |funct3: u8, rs1: usize, imm: i32| Store {
        ty: TypeS {
            rs1,
            rs2: 2,
            imm,
            funct3,
        },
    };
    assert_eq!(store(2, 1, -4).execute(&mut engine), Ok(true));
    assert_eq!(store(1, 1, 0).execute(&mut engine), Ok(true));
    assert_eq!(store(0, 1, 3).execute(&mut engine), Ok(true));
    assert_eq!(engine.program_counter, 12);
    // Into code, across the end of RAM, below RAM.
    assert_eq!(store(0, 0, 0).execute(&mut engine), Err(EmbiveError::InvalidMemory));
    assert_eq!(store(2, 0, 4).execute(&mut engine), Err(EmbiveError::InvalidMemory));
    assert_eq!(store(2, 1, 1).execute(&mut engine), Err(EmbiveError::InvalidMemory));
    assert_eq!(store(1, 1, 3).execute(&mut engine), Err(EmbiveError::InvalidMemory));
    assert_eq!(store(0, 1, 4).execute(&mut engine), Err(EmbiveError::InvalidMemory));
    assert_eq!(store(0, 1, -5).execute(&mut engine), Err(EmbiveError::InvalidMemory));
    assert_eq!(engine.program_counter, 12);
    assert_eq!(ram, [0x44, 0x33, 0x22, 0x11, 0x44, 0x33, 0, 0x44]);
    assert_eq!(code, [0u8; 8]);
}

#[test]
fn register_index_out_of_range_traps() {
    let mut ram = [0u8; 8];
    let mut memory = SliceMemory::new(&[], &mut ram);
    let mut engine =
        Engine::new(&mut memory, Config::<SyscallFn<SliceMemory>>::default()).unwrap();
    *engine.registers.get_mut(1).unwrap() = RAM_OFFSET as i32;
    engine.program_counter = 0x10;
    let results = [
        Lui { ty: TypeU { rd: 32, imm: 0 } }.execute(&mut engine),
        Jal { ty: TypeJ { rd: 32, imm: 8 } }.execute(&mut engine),
        Jalr { ty: TypeI { rd: 32, rs1: 0, imm: 8, funct3: 0 } }.execute(&mut engine),
        Jalr { ty: TypeI { rd: 1, rs1: 32, imm: 8, funct3: 0 } }.execute(&mut engine),
        Op { ty: TypeR { rd: 32, rs1: 0, rs2: 0, funct3: 0, funct7: 0 } }.execute(&mut engine),
        Op { ty: TypeR { rd: 1, rs1: 32, rs2: 0, funct3: 0, funct7: 0 } }.execute(&mut engine),
        Op { ty: TypeR { rd: 1, rs1: 0, rs2: 99, funct3: 0, funct7: 0 } }.execute(&mut engine),
        OpImm { ty: TypeI { rd: 32, rs1: 0, imm: 1, funct3: 0 } }.execute(&mut engine),
        OpImm { ty: TypeI { rd: 1, rs1: usize::MAX, imm: 1, funct3: 0 } }.execute(&mut engine),
        Load { ty: TypeI { rd: 32, rs1: 1, imm: 0, funct3: 2 } }.execute(&mut engine),
        Load { ty: TypeI { rd: 1, rs1: 32, imm: 0, funct3: 2 } }.execute(&mut engine),
        Store { ty: TypeS { rs1: 32, rs2: 1, imm: 0, funct3: 2 } }.execute(&mut engine),
        Store { ty: TypeS { rs1: 1, rs2: 32, imm: 0, funct3: 2 } }.execute(&mut engine),
        Branch { ty: TypeB { rs1: 32, rs2: 1, imm: 8, funct3: 0 } }.execute(&mut engine),
        Branch { ty: TypeB { rs1: 1, rs2: 32, imm: 8, funct3: 0 } }.execute(&mut engine),
    ];
    for result in results {
        assert_eq!(result, Err(EmbiveError::InvalidRegister));
    }
    assert_eq!(engine.program_counter, 0x10);
    let mut expected = Registers::new();
    expected.inner[1] = RAM_OFFSET as i32;
    assert_eq!(engine.registers, expected);
    assert_eq!(ram, [0u8; 8]);
}

#[test]
fn fence_does_nothing() {
    let mut memory = SliceMemory::new(&[], &mut []);
    let mut engine =
        Engine::new(&mut memory, Config::<SyscallFn<SliceMemory>>::default()).unwrap();
    let fence = MiscMem::decode(0x0ff0_000f);
    assert_eq!(fence.execute(&mut engine), Ok(true));
    assert_eq!(engine.program_counter, 4);
    assert_eq!(engine.registers, Registers::new());
    let unknown = MiscMem {
        ty: TypeI { rd: 0, rs1: 0, imm: 0, funct3: 2 },
    };
    assert_eq!(unknown.execute(&mut engine), Err(EmbiveError::InvalidInstruction));
    assert_eq!(engine.program_counter, 4);
}

#[test]
fn system_call_registers() {
    let mut registers = Registers::new();
    for i in 0..32 {
        registers.inner[i] = 100 + i as i32;
    }
    assert_eq!(System::request(&registers), (117, [110, 111, 112, 113, 114, 115]));
    System::complete(&mut registers, Ok(-5));
    assert_eq!(registers.inner[10], -5);
    assert_eq!(registers.inner[11], 0);
    System::complete(&mut registers, Err(77));
    assert_eq!(registers.inner[10], 0);
    assert_eq!(registers.inner[11], 77);
    for i in 0..32 {
        if i != 10 && i != 11 {
            assert_eq!(registers.inner[i], 100 + i as i32);
        }
    }
}

#[test]
fn ebreak_halts_in_place() {
    let mut memory = SliceMemory::new(&[], &mut []);
    let mut engine =
        Engine::new(&mut memory, Config::<SyscallFn<SliceMemory>>::default()).unwrap();
    engine.program_counter = 0x44;
    let ebreak = System::decode(0x0010_0073);
    assert_eq!(ebreak.ty, TypeI { rd: 0, rs1: 0, imm: 1, funct3: 0 });
    assert_eq!(ebreak.execute(&mut engine), Ok(false));
    assert_eq!(engine.program_counter, 0x44);
    assert_eq!(engine.registers, Registers::new());
}
