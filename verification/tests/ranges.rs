use rs_desmume::codec::Width;
use rs_desmume::mem::read::decode_elements;
use rs_desmume::mem::read::plan_loads;
use rs_desmume::mem::read::plan_stores;
use rs_desmume::mem::read::ContractViolation;
use rs_desmume::mem::read::TypedMemoryAccessor;
use rs_desmume::mem::read::TypedMemoryMutator;
use rs_desmume::mem::IndexMove;
use rs_desmume::mem::IndexSet;
use rs_desmume::primitive::Load;
use rs_desmume::primitive::Store;
use rs_desmume::DeSmuMEMemory;

fn load(address: u32, width: Width) -> Load {
    Load { address, width }
}

fn store(address: u32, width: Width, value: u32) -> Store {
    Store { address, width, value }
}

#[test]
fn one_address_gives_one_width_matched_load() {
    let memory = DeSmuMEMemory::new();
    assert_eq!(memory.u8().index_move(123), load(123, Width::Byte));
    assert_eq!(memory.i8().index_move(200), load(200, Width::Byte));
    assert_eq!(memory.u16().index_move(1000), load(1000, Width::Half));
    assert_eq!(memory.i16().index_move(1001), load(1001, Width::Half));
    assert_eq!(memory.u32().index_move(0x0200_0000), load(0x0200_0000, Width::Word));
    assert_eq!(memory.i32().index_move(u32::MAX), load(u32::MAX, Width::Word));
}

#[test]
fn u16_range_of_eight_bytes_has_four_elements() {
    let memory = DeSmuMEMemory::new();
    let loads = memory.u16().index_move(1000..1008).unwrap();
    assert_eq!(
        loads,
        vec![
            load(1000, Width::Half),
            load(1002, Width::Half),
            load(1004, Width::Half),
            load(1006, Width::Half),
        ]
    );
}

#[test]
fn a_byte_range_has_one_load_per_byte() {
    let memory = DeSmuMEMemory::new();
    let loads = memory.u8().index_move(123..456).unwrap();
    assert_eq!(loads.len(), 333);
    for (position, access) in loads.iter().enumerate() {
        assert_eq!(*access, load(123 + position as u32, Width::Byte));
    }
    let signed = memory.i8().index_move(7..10).unwrap();
    assert_eq!(signed, vec![load(7, Width::Byte), load(8, Width::Byte), load(9, Width::Byte)]);
}

#[test]
fn a_word_range_steps_by_four() {
    let memory = DeSmuMEMemory::new();
    let loads = memory.u32().index_move(0x100..0x10C).unwrap();
    assert_eq!(
        loads,
        vec![load(0x100, Width::Word), load(0x104, Width::Word), load(0x108, Width::Word)]
    );
    let signed = memory.i32().index_move(3..11).unwrap();
    assert_eq!(signed, vec![load(3, Width::Word), load(7, Width::Word)]);
}

#[test]
fn an_empty_range_has_no_elements() {
    let memory = DeSmuMEMemory::new();
    assert_eq!(memory.u8().index_move(5..5), Ok(vec![]));
    assert_eq!(memory.u16().index_move(5..5), Ok(vec![]));
    assert_eq!(memory.i32().index_move(0..0), Ok(vec![]));
    assert_eq!(memory.u32().index_move(u32::MAX..u32::MAX), Ok(vec![]));
}

#[test]
fn a_range_may_end_at_the_top_of_the_address_space() {
    let memory = DeSmuMEMemory::new();
    let top = u32::MAX;
    assert_eq!(
        memory.u32().index_move(top - 8..top),
        Ok(vec![load(top - 8, Width::Word), load(top - 4, Width::Word)])
    );
    assert_eq!(
        memory.u16().index_move(top - 4..top),
        Ok(vec![load(top - 4, Width::Half), load(top - 2, Width::Half)])
    );
    assert_eq!(memory.u8().index_move(top - 1..top), Ok(vec![load(top - 1, Width::Byte)]));
}

#[test]
fn a_length_that_is_no_multiple_of_the_width_is_refused() {
    let memory = DeSmuMEMemory::new();
    let refused = Err(ContractViolation::MisalignedRange);
    assert_eq!(memory.u16().index_move(1000..1001), refused);
    assert_eq!(memory.u16().index_move(1000..1007), refused);
    assert_eq!(memory.i16().index_move(0..3), refused);
    for length in [1u32, 2, 3, 5, 6, 7, 9] {
        assert_eq!(memory.u32().index_move(1000..1000 + length), refused);
        assert_eq!(memory.i32().index_move(1000..1000 + length), refused);
    }
}

#[test]
fn the_start_of_a_range_need_not_be_aligned() {
    let memory = DeSmuMEMemory::new();
    assert_eq!(
        memory.u16().index_move(1001..1005),
        Ok(vec![load(1001, Width::Half), load(1003, Width::Half)])
    );
}

#[test]
fn a_byte_range_of_any_length_is_accepted() {
    let memory = DeSmuMEMemory::new();
    for length in 0u32..20 {
        assert_eq!(memory.u8().index_move(50..50 + length).unwrap().len(), length as usize);
        assert_eq!(memory.i8().index_move(50..50 + length).unwrap().len(), length as usize);
    }
}

#[test]
fn a_range_as_long_as_one_element_is_that_element() {
    let mut memory = DeSmuMEMemory::new();
    assert_eq!(memory.u8().index_move(9..10), Ok(vec![memory.u8().index_move(9)]));
    assert_eq!(memory.u16().index_move(9..11), Ok(vec![memory.u16().index_move(9)]));
    assert_eq!(memory.i16().index_move(8..10), Ok(vec![memory.i16().index_move(8)]));
    assert_eq!(memory.u32().index_move(9..13), Ok(vec![memory.u32().index_move(9)]));
    assert_eq!(memory.i32().index_move(u32::MAX - 4..u32::MAX), Ok(vec![memory
        .i32()
        .index_move(u32::MAX - 4)]));
    let one = memory.u32_mut().index_set(9, &0xCAFE_F00D);
    assert_eq!(memory.u32_mut().index_set(9..13, &vec![0xCAFE_F00D]), Ok(vec![one]));
    let half = memory.i16_mut().index_set(40, &-3);
    assert_eq!(memory.i16_mut().index_set(40..42, &vec![-3]), Ok(vec![half]));
}

#[test]
fn a_range_that_ends_before_it_starts_is_empty() {
    let mut memory = DeSmuMEMemory::new();
    let start: u32 = 10;
    assert_eq!(memory.u8().index_move(start..9), Ok(vec![]));
    assert_eq!(memory.u16().index_move(start..9), Ok(vec![]));
    assert_eq!(memory.u32().index_move(start..2), Ok(vec![]));
    assert_eq!(memory.i32().index_move(u32::MAX..0), Ok(vec![]));
    assert_eq!(memory.u16_mut().index_set(start..8, &vec![]), Ok(vec![]));
    assert_eq!(
        memory.u16_mut().index_set(start..8, &vec![1]),
        Err(ContractViolation::LengthMismatch)
    );
}

#[test]
fn one_value_gives_one_width_matched_store() {
    let mut memory = DeSmuMEMemory::new();
    assert_eq!(memory.u8_mut().index_set(456, &0xAB), store(456, Width::Byte, 0xAB));
    assert_eq!(memory.i8_mut().index_set(456, &-1), store(456, Width::Byte, 0xFF));
    assert_eq!(memory.u16_mut().index_set(1000, &0x1111), store(1000, Width::Half, 0x1111));
    assert_eq!(memory.i16_mut().index_set(1000, &-2), store(1000, Width::Half, 0xFFFE));
    assert_eq!(
        memory.u32_mut().index_set(1000, &0xDEAD_BEEF),
        store(1000, Width::Word, 0xDEAD_BEEF)
    );
    assert_eq!(memory.i32_mut().index_set(1000, &-1), store(1000, Width::Word, 0xFFFF_FFFF));
}

#[test]
fn a_range_write_stores_each_value_in_ascending_order() {
    let mut memory = DeSmuMEMemory::new();
    let stores =
        memory.u16_mut().index_set(1000..1008, &vec![0x1111, 0x2222, 0x3333, 0x4444]).unwrap();
    assert_eq!(
        stores,
        vec![
            store(1000, Width::Half, 0x1111),
            store(1002, Width::Half, 0x2222),
            store(1004, Width::Half, 0x3333),
            store(1006, Width::Half, 0x4444),
        ]
    );
    let signed = memory.i32_mut().index_set(16..24, &vec![-1, 5]).unwrap();
    assert_eq!(signed, vec![store(16, Width::Word, 0xFFFF_FFFF), store(20, Width::Word, 5)]);
    let bytes = memory.u8_mut().index_set(500..503, &vec![1, 2, 3]).unwrap();
    assert_eq!(
        bytes,
        vec![store(500, Width::Byte, 1), store(501, Width::Byte, 2), store(502, Width::Byte, 3)]
    );
}

#[test]
fn the_number_of_values_must_be_the_number_of_elements() {
    let mut memory = DeSmuMEMemory::new();
    let refused = Err(ContractViolation::LengthMismatch);
    assert_eq!(memory.u16_mut().index_set(1000..1008, &vec![1, 2, 3]), refused);
    assert_eq!(memory.u16_mut().index_set(1000..1008, &vec![1, 2, 3, 4, 5]), refused);
    assert_eq!(memory.u16_mut().index_set(1000..1008, &vec![1, 2, 3, 4, 5, 6, 7, 8]), refused);
    assert_eq!(memory.u8_mut().index_set(0..0, &vec![1]), refused);
    assert_eq!(memory.i32_mut().index_set(0..4, &vec![]), refused);
}

#[test]
fn a_fault_of_the_range_is_named_before_a_wrong_number_of_values() {
    let mut memory = DeSmuMEMemory::new();
    assert_eq!(
        memory.u16_mut().index_set(1000..1007, &vec![1, 2, 3]),
        Err(ContractViolation::MisalignedRange)
    );
    assert_eq!(
        memory.u32_mut().index_set(1000..1002, &vec![]),
        Err(ContractViolation::MisalignedRange)
    );
}

#[test]
fn a_writer_reads_as_a_reader_does() {
    let mut memory = DeSmuMEMemory::new();
    let from_reader = memory.u16().index_move(1000..1008);
    let single = memory.i32().index_move(77);
    assert_eq!(memory.u16_mut().index_move(1000..1008), from_reader);
    assert_eq!(memory.i32_mut().index_move(77), single);
    assert_eq!(
        memory.u32_mut().index_move(0..3),
        Err(ContractViolation::MisalignedRange)
    );
}

#[test]
fn readers_and_writers_agree_with_the_named_operations() {
    let mut memory = DeSmuMEMemory::new();
    {
        let reader = memory.i16();
        assert_eq!(reader.0.read_one(12), reader.index_move(12));
        assert_eq!(reader.0.read_range(12..20), reader.index_move(12..20));
        assert_eq!(reader.0.read_range(12..15), Err(ContractViolation::MisalignedRange));
    }
    let mut writer = memory.i16_mut();
    assert_eq!(writer.0.read_one(12), load(12, Width::Half));
    assert_eq!(writer.0.write_one(12, -1), store(12, Width::Half, 0xFFFF));
    assert_eq!(
        writer.0.write_range(12..16, &[1, -1]),
        Ok(vec![store(12, Width::Half, 1), store(14, Width::Half, 0xFFFF)])
    );
    assert_eq!(writer.0.write_range(12..16, &[1]), Err(ContractViolation::LengthMismatch));
}

#[test]
fn plans_can_be_made_without_a_view() {
    assert_eq!(
        plan_loads::<u16>(&(0..4)),
        Ok(vec![load(0, Width::Half), load(2, Width::Half)])
    );
    assert_eq!(plan_loads::<u32>(&(0..6)), Err(ContractViolation::MisalignedRange));
    assert_eq!(
        plan_stores::<i8>(&(3..5), &[-1, 1]),
        Ok(vec![store(3, Width::Byte, 0xFF), store(4, Width::Byte, 1)])
    );
    assert_eq!(plan_stores::<i8>(&(3..5), &[-1]), Err(ContractViolation::LengthMismatch));
}

#[test]
fn stored_values_fit_their_width() {
    let mut memory = DeSmuMEMemory::new();
    let bytes: Vec<i8> = (i8::MIN..=i8::MAX).collect();
    for access in memory.i8_mut().index_set(0..256, &bytes).unwrap() {
        assert!(access.value <= 0xFF);
    }
    let halves: Vec<i16> = vec![i16::MIN, -1, 0, 1, i16::MAX];
    for access in memory.i16_mut().index_set(0..10, &halves).unwrap() {
        assert!(access.value <= 0xFFFF);
    }
}

#[test]
fn results_decode_one_element_per_load() {
    assert_eq!(decode_elements::<u16>(&[0x1111, 0x2222]), vec![0x1111u16, 0x2222]);
    assert_eq!(decode_elements::<i8>(&[0xFF, 0x80, 0x7F, 0]), vec![-1i8, -128, 127, 0]);
    assert_eq!(decode_elements::<i32>(&[0xFFFF_FFFE]), vec![-2i32]);
    assert_eq!(decode_elements::<u32>(&[]), Vec::<u32>::new());
    assert_eq!(decode_elements::<u8>(&[0x1FF, 0x100]), vec![0xFFu8, 0]);
}
