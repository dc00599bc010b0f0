use embive::error::EmbiveError;
use embive::register::{Register, Registers, REGISTER_COUNT};

#[test]
fn get_register() {
    let mut registers = Registers::new();

    assert_eq!(registers.get(0), Ok(0));
    assert_eq!(registers.get(REGISTER_COUNT as usize - 1), Ok(0));
    assert_eq!(registers.get_mut(0).map(|x| *x), Ok(0));
    assert_eq!(
        registers.get_mut(REGISTER_COUNT as usize - 1).map(|x| *x),
        Ok(0)
    );
}

#[test]
fn get_register_out_of_bounds() {
    let mut registers = Registers::new();

    assert_eq!(
        registers.get(REGISTER_COUNT as usize),
        Err(EmbiveError::InvalidRegister)
    );
    assert_eq!(
        registers.get_mut(REGISTER_COUNT as usize).map(|x| *x),
        Err(EmbiveError::InvalidRegister)
    );
}

#[test]
fn reset_registers() {
    let mut registers = Registers::new();
    for i in 0..REGISTER_COUNT {
        registers.inner[i] = i as i32;
    }

    registers.reset();

    assert_eq!(registers.inner, [0; REGISTER_COUNT]);
}

#[test]
fn get_mut_writes_one_register() {
    let mut registers = Registers::new();
    *registers.get_mut(5).unwrap() = -7;
    *registers.get_mut(31).unwrap() = 9;

    for i in 0..REGISTER_COUNT {
        let expected = match i {
            5 => -7,
            31 => 9,
            _ => 0,
        };
        assert_eq!(registers.get(i), Ok(expected));
    }
}

#[test]
fn get_register_far_out_of_bounds() {
    let mut registers = Registers::new();
    assert_eq!(registers.get(usize::MAX), Err(EmbiveError::InvalidRegister));
    assert_eq!(
        registers.get_mut(usize::MAX).map(|x| *x),
        Err(EmbiveError::InvalidRegister)
    );
    assert_eq!(registers, Registers::new());
}

#[test]
fn default_registers_are_zero() {
    assert_eq!(Registers::default(), Registers::new());
    assert_eq!(Registers::default().inner, [0; REGISTER_COUNT]);
}

#[test]
fn register_names_follow_the_abi() {
    assert_eq!(Register::Zero.index(), 0);
    assert_eq!(Register::RA.index(), 1);
    assert_eq!(Register::SP.index(), 2);
    assert_eq!(Register::A0.index(), 10);
    assert_eq!(Register::A1.index(), 11);
    assert_eq!(Register::A5.index(), 15);
    assert_eq!(Register::A7.index(), 17);
    assert_eq!(Register::S2.index(), 18);
    assert_eq!(Register::T3.index(), 28);
    assert_eq!(Register::T6.index(), 31);
    assert_eq!(Register::T6.index(), REGISTER_COUNT - 1);
}

#[test]
fn register_index_is_its_position() {
    let all = [
        Register::Zero,
        Register::RA,
        Register::SP,
        Register::GP,
        Register::TP,
        Register::T0,
        Register::T1,
        Register::T2,
        Register::S0,
        Register::S1,
        Register::A0,
        Register::A1,
        Register::A2,
        Register::A3,
        Register::A4,
        Register::A5,
        Register::A6,
        Register::A7,
        Register::S2,
        Register::S3,
        Register::S4,
        Register::S5,
        Register::S6,
        Register::S7,
        Register::S8,
        Register::S9,
        Register::S10,
        Register::S11,
        Register::T3,
        Register::T4,
        Register::T5,
        Register::T6,
    ];
    assert_eq!(all.len(), REGISTER_COUNT);
    for (position, register) in all.iter().enumerate() {
        assert_eq!(register.index(), position);
        assert_eq!(*register as usize, position);
    }
}
