use embive::error::EmbiveError;
use embive::memory::{
    half_from_bytes, low_byte, low_half, word_from_bytes, word_to_bytes, Memory, SliceMemory,
    RAM_OFFSET,
};

#[test]
fn ram_offset_is_the_upper_half() {
    assert_eq!(RAM_OFFSET, 0x8000_0000);
}

#[test]
fn load_at_the_end_of_ram() {
    for len in [4usize, 5, 16, 1024] {
        let mut ram = vec![0u8; len];
        for (i, byte) in ram.iter_mut().enumerate() {
            *byte = i as u8;
        }
        let last = ram[len - 1];
        let memory = SliceMemory::new(&[], &mut ram);
        let end = RAM_OFFSET + len as u32;
        assert_eq!(memory.load::<1>(end - 1), Ok([last]));
        assert_eq!(memory.load::<1>(end), Err(EmbiveError::InvalidMemory));
        assert_eq!(
            memory.load::<2>(end - 2),
            Ok([last.wrapping_sub(1), last])
        );
        assert_eq!(memory.load::<2>(end - 1), Err(EmbiveError::InvalidMemory));
        assert_eq!(
            memory.load::<4>(end - 4),
            Ok([
                last.wrapping_sub(3),
                last.wrapping_sub(2),
                last.wrapping_sub(1),
                last
            ])
        );
        assert_eq!(memory.load::<4>(end - 3), Err(EmbiveError::InvalidMemory));
    }
}

#[test]
fn load_at_the_end_of_code() {
    let code = [1u8, 2, 3, 4, 5, 6];
    let mut ram = [0u8; 0];
    let memory = SliceMemory::new(&code, &mut ram);
    assert_eq!(memory.load::<4>(0), Ok([1, 2, 3, 4]));
    assert_eq!(memory.load::<4>(2), Ok([3, 4, 5, 6]));
    assert_eq!(memory.load::<4>(3), Err(EmbiveError::InvalidMemory));
    assert_eq!(memory.load::<2>(4), Ok([5, 6]));
    assert_eq!(memory.load::<2>(5), Err(EmbiveError::InvalidMemory));
    assert_eq!(memory.load::<1>(5), Ok([6]));
    assert_eq!(memory.load::<1>(6), Err(EmbiveError::InvalidMemory));
    assert_eq!(memory.load::<1>(RAM_OFFSET - 1), Err(EmbiveError::InvalidMemory));
    assert_eq!(memory.load::<1>(RAM_OFFSET), Err(EmbiveError::InvalidMemory));
    assert_eq!(memory.load::<1>(u32::MAX), Err(EmbiveError::InvalidMemory));
    assert_eq!(memory.load::<4>(u32::MAX), Err(EmbiveError::InvalidMemory));
}

#[test]
fn load_of_no_or_many_bytes() {
    let code = [1u8, 2, 3];
    let mut ram = [7u8, 8, 9, 10, 11, 12, 13, 14, 15];
    let memory = SliceMemory::new(&code, &mut ram);
    assert_eq!(memory.load::<0>(0), Ok([]));
    assert_eq!(memory.load::<0>(3), Ok([]));
    assert_eq!(memory.load::<0>(4), Err(EmbiveError::InvalidMemory));
    assert_eq!(memory.load::<0>(RAM_OFFSET + 9), Ok([]));
    assert_eq!(memory.load::<0>(RAM_OFFSET + 10), Err(EmbiveError::InvalidMemory));
    assert_eq!(memory.load::<3>(0), Ok([1, 2, 3]));
    assert_eq!(
        memory.load::<8>(RAM_OFFSET + 1),
        Ok([8, 9, 10, 11, 12, 13, 14, 15])
    );
    assert_eq!(memory.load::<8>(RAM_OFFSET + 2), Err(EmbiveError::InvalidMemory));
    assert_eq!(memory.load::<10>(RAM_OFFSET), Err(EmbiveError::InvalidMemory));
}

#[test]
fn store_into_code_traps() {
    let code = [1u8, 2, 3, 4, 5, 6, 7, 8];
    let mut ram = [0u8; 8];
    let mut memory = SliceMemory::new(&code, &mut ram);
    for address in [0u32, 1, 4, 7, 8, 0x1000, RAM_OFFSET - 4, RAM_OFFSET - 1] {
        assert_eq!(memory.store::<1>(address, [0xaa]), Err(EmbiveError::InvalidMemory));
        assert_eq!(
            memory.store::<2>(address, [0xaa, 0xbb]),
            Err(EmbiveError::InvalidMemory)
        );
        assert_eq!(
            memory.store::<4>(address, [0xaa, 0xbb, 0xcc, 0xdd]),
            Err(EmbiveError::InvalidMemory)
        );
    }
    assert_eq!(memory.load::<4>(0), Ok([1, 2, 3, 4]));
    assert_eq!(memory.load::<4>(4), Ok([5, 6, 7, 8]));
    assert_eq!(memory.load::<4>(RAM_OFFSET), Ok([0, 0, 0, 0]));
    assert_eq!(memory.load::<4>(RAM_OFFSET + 4), Ok([0, 0, 0, 0]));
    assert_eq!(code, [1u8, 2, 3, 4, 5, 6, 7, 8]);
    assert_eq!(ram, [0u8; 8]);
}

#[test]
fn store_then_load_gives_the_bytes_back() {
    let code = [9u8; 4];
    let mut ram = [0u8; 8];
    let mut memory = SliceMemory::new(&code, &mut ram);
    assert_eq!(memory.store::<4>(RAM_OFFSET, [1, 2, 3, 4]), Ok(()));
    assert_eq!(memory.load::<4>(RAM_OFFSET), Ok([1, 2, 3, 4]));
    assert_eq!(memory.store::<2>(RAM_OFFSET + 3, [5, 6]), Ok(()));
    assert_eq!(memory.load::<2>(RAM_OFFSET + 3), Ok([5, 6]));
    assert_eq!(memory.store::<1>(RAM_OFFSET + 7, [7]), Ok(()));
    assert_eq!(memory.load::<1>(RAM_OFFSET + 7), Ok([7]));
    assert_eq!(memory.load::<4>(RAM_OFFSET), Ok([1, 2, 3, 5]));
    assert_eq!(memory.load::<4>(RAM_OFFSET + 4), Ok([6, 0, 0, 7]));
    assert_eq!(memory.load::<4>(0), Ok([9, 9, 9, 9]));
    assert_eq!(ram, [1, 2, 3, 5, 6, 0, 0, 7]);
}

#[test]
fn store_across_the_end_of_ram_changes_nothing() {
    let mut ram = [0u8; 6];
    let mut memory = SliceMemory::new(&[], &mut ram);
    assert_eq!(
        memory.store::<4>(RAM_OFFSET + 3, [1, 2, 3, 4]),
        Err(EmbiveError::InvalidMemory)
    );
    assert_eq!(
        memory.store::<2>(RAM_OFFSET + 5, [1, 2]),
        Err(EmbiveError::InvalidMemory)
    );
    assert_eq!(memory.store::<1>(RAM_OFFSET + 6, [1]), Err(EmbiveError::InvalidMemory));
    assert_eq!(memory.store::<1>(u32::MAX, [1]), Err(EmbiveError::InvalidMemory));
    assert_eq!(memory.store::<4>(u32::MAX, [1, 2, 3, 4]), Err(EmbiveError::InvalidMemory));
    assert_eq!(memory.store::<4>(RAM_OFFSET + 2, [1, 2, 3, 4]), Ok(()));
    assert_eq!(ram, [0, 0, 1, 2, 3, 4]);
}

#[test]
fn empty_memory_refuses_everything() {
    let mut memory = SliceMemory::new(&[], &mut []);
    assert_eq!(memory.load::<1>(0), Err(EmbiveError::InvalidMemory));
    assert_eq!(memory.load::<4>(0), Err(EmbiveError::InvalidMemory));
    assert_eq!(memory.load::<1>(RAM_OFFSET), Err(EmbiveError::InvalidMemory));
    assert_eq!(memory.store::<1>(RAM_OFFSET, [0]), Err(EmbiveError::InvalidMemory));
    assert_eq!(memory.store::<1>(0, [0]), Err(EmbiveError::InvalidMemory));
}

#[test]
fn words_are_little_endian() {
    assert_eq!(word_from_bytes([0x78, 0x56, 0x34, 0x12]), 0x1234_5678);
    assert_eq!(word_from_bytes([0xff, 0xff, 0xff, 0xff]), u32::MAX);
    assert_eq!(word_from_bytes([0, 0, 0, 0x80]), 0x8000_0000);
    assert_eq!(half_from_bytes([0x34, 0x12]), 0x1234);
    assert_eq!(half_from_bytes([0xff, 0xff]), 0xffff);
    assert_eq!(word_to_bytes(0x1234_5678), [0x78, 0x56, 0x34, 0x12]);
    assert_eq!(word_to_bytes(u32::MAX), [0xff; 4]);
    assert_eq!(low_half(0x1234_5678), [0x78, 0x56]);
    assert_eq!(low_byte(0x1234_5678), [0x78]);
    for value in [0u32, 1, 0xff, 0x100, 0xdead_beef, u32::MAX] {
        assert_eq!(word_to_bytes(value), value.to_le_bytes());
        assert_eq!(word_from_bytes(word_to_bytes(value)), value);
        assert_eq!(half_from_bytes(low_half(value)), value as u16);
    }
}
