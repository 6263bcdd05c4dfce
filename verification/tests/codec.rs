use rs_desmume::codec::decode;
use rs_desmume::codec::encode;
use rs_desmume::codec::Element;
use rs_desmume::codec::Width;

#[test]
fn widths_are_one_two_and_four_bytes() {
    assert_eq!(Width::Byte.bytes(), 1);
    assert_eq!(Width::Half.bytes(), 2);
    assert_eq!(Width::Word.bytes(), 4);
}

#[test]
fn each_element_type_has_its_width() {
    assert_eq!(<u8 as Element>::width(), Width::Byte);
    assert_eq!(<i8 as Element>::width(), Width::Byte);
    assert_eq!(<u16 as Element>::width(), Width::Half);
    assert_eq!(<i16 as Element>::width(), Width::Half);
    assert_eq!(<u32 as Element>::width(), Width::Word);
    assert_eq!(<i32 as Element>::width(), Width::Word);
}

#[test]
fn i8_reads_ff_as_minus_one() {
    assert_eq!(<i8 as Element>::from_raw(0xFF), -1i8);
}

#[test]
fn u8_reads_ff_as_255() {
    assert_eq!(<u8 as Element>::from_raw(0xFF), 255u8);
}

#[test]
fn signed_types_reuse_the_bit_pattern() {
    assert_eq!(<i8 as Element>::from_raw(0x7F), 127i8);
    assert_eq!(<i8 as Element>::from_raw(0x80), -128i8);
    assert_eq!(<i16 as Element>::from_raw(0x7FFF), 32767i16);
    assert_eq!(<i16 as Element>::from_raw(0x8000), -32768i16);
    assert_eq!(<i16 as Element>::from_raw(0xFFFE), -2i16);
    assert_eq!(<i32 as Element>::from_raw(0x7FFF_FFFF), i32::MAX);
    assert_eq!(<i32 as Element>::from_raw(0x8000_0000), i32::MIN);
    assert_eq!(<i32 as Element>::from_raw(0xFFFF_FFFF), -1i32);
}

#[test]
fn unsigned_types_read_the_pattern_as_it_is() {
    assert_eq!(<u8 as Element>::from_raw(0x12), 0x12u8);
    assert_eq!(<u16 as Element>::from_raw(0xBEEF), 0xBEEFu16);
    assert_eq!(<u32 as Element>::from_raw(0xDEAD_BEEF), 0xDEAD_BEEFu32);
}

#[test]
fn reading_ignores_bits_above_the_width() {
    assert_eq!(<u8 as Element>::from_raw(0x1234_56FF), 0xFFu8);
    assert_eq!(<i8 as Element>::from_raw(0x1234_56FF), -1i8);
    assert_eq!(<u16 as Element>::from_raw(0x1234_8001), 0x8001u16);
    assert_eq!(<i16 as Element>::from_raw(0x1234_8001), -32767i16);
}

#[test]
fn bit_patterns_are_zero_extended() {
    assert_eq!(0xABu8.to_raw(), 0xAB);
    assert_eq!((-1i8).to_raw(), 0xFF);
    assert_eq!((-128i8).to_raw(), 0x80);
    assert_eq!(0xBEEFu16.to_raw(), 0xBEEF);
    assert_eq!((-2i16).to_raw(), 0xFFFE);
    assert_eq!(0xDEAD_BEEFu32.to_raw(), 0xDEAD_BEEF);
    assert_eq!((-1i32).to_raw(), 0xFFFF_FFFF);
    assert_eq!(i32::MIN.to_raw(), 0x8000_0000);
}

#[test]
fn every_byte_pattern_survives_the_round_trip() {
    for raw in 0u32..=0xFF {
        assert_eq!(<u8 as Element>::from_raw(raw).to_raw(), raw);
        assert_eq!(<i8 as Element>::from_raw(raw).to_raw(), raw);
    }
    for value in i8::MIN..=i8::MAX {
        assert_eq!(<i8 as Element>::from_raw(value.to_raw()), value);
    }
}

#[test]
fn every_halfword_pattern_survives_the_round_trip() {
    for raw in 0u32..=0xFFFF {
        assert_eq!(<u16 as Element>::from_raw(raw).to_raw(), raw);
        assert_eq!(<i16 as Element>::from_raw(raw).to_raw(), raw);
    }
}

#[test]
fn bytes_are_little_endian() {
    assert_eq!(encode(0x1234u16), vec![0x34, 0x12]);
    assert_eq!(encode(0x1234_5678u32), vec![0x78, 0x56, 0x34, 0x12]);
    assert_eq!(encode(0xABu8), vec![0xAB]);
    assert_eq!(encode(-1i8), vec![0xFF]);
    assert_eq!(encode(-2i16), vec![0xFE, 0xFF]);
    assert_eq!(encode(-2i32), vec![0xFE, 0xFF, 0xFF, 0xFF]);
    assert_eq!(encode(i32::MIN), vec![0x00, 0x00, 0x00, 0x80]);
}

#[test]
fn decoding_reads_little_endian_bytes() {
    assert_eq!(decode::<u16>(&[0x34, 0x12]), Some(0x1234u16));
    assert_eq!(decode::<u32>(&[0x78, 0x56, 0x34, 0x12]), Some(0x1234_5678u32));
    assert_eq!(decode::<u32>(&[0xFF, 0xFF, 0xFF, 0xFF]), Some(u32::MAX));
    assert_eq!(decode::<u8>(&[0xFF]), Some(255u8));
    assert_eq!(decode::<i8>(&[0xFF]), Some(-1i8));
    assert_eq!(decode::<i16>(&[0x00, 0x80]), Some(i16::MIN));
    assert_eq!(decode::<i32>(&[0xFE, 0xFF, 0xFF, 0xFF]), Some(-2i32));
}

#[test]
fn a_run_of_the_wrong_length_decodes_to_nothing() {
    assert_eq!(decode::<u8>(&[]), None);
    assert_eq!(decode::<u8>(&[1, 2]), None);
    assert_eq!(decode::<u16>(&[1]), None);
    assert_eq!(decode::<u16>(&[1, 2, 3]), None);
    assert_eq!(decode::<i16>(&[1, 2, 3, 4]), None);
    assert_eq!(decode::<u32>(&[1, 2, 3]), None);
    assert_eq!(decode::<i32>(&[1, 2, 3, 4, 5]), None);
}

#[test]
fn encoded_length_is_the_width() {
    assert_eq!(encode(0u8).len(), 1);
    assert_eq!(encode(0i8).len(), 1);
    assert_eq!(encode(0u16).len(), 2);
    assert_eq!(encode(0i16).len(), 2);
    assert_eq!(encode(0u32).len(), 4);
    assert_eq!(encode(0i32).len(), 4);
}

#[test]
fn decoding_undoes_encoding() {
    for value in [0i32, 1, -1, 0x1234_5678, i32::MIN, i32::MAX, -0x1234_5678] {
        assert_eq!(decode::<i32>(&encode(value)), Some(value));
    }
    for value in [0u32, 1, 0xFF, 0x100, 0xFFFF, 0x1_0000, 0xDEAD_BEEF, u32::MAX] {
        assert_eq!(decode::<u32>(&encode(value)), Some(value));
    }
    for value in i16::MIN..=i16::MAX {
        assert_eq!(decode::<i16>(&encode(value)), Some(value));
    }
    for value in u8::MIN..=u8::MAX {
        assert_eq!(decode::<u8>(&encode(value)), Some(value));
    }
}

#[test]
fn encoding_undoes_decoding() {
    let runs: [[u8; 4]; 4] =
        [[0, 0, 0, 0], [0xFF, 0xFF, 0xFF, 0xFF], [0x01, 0x02, 0x03, 0x04], [0x00, 0x00, 0x00, 0x80]];
    for run in runs {
        assert_eq!(encode(decode::<u32>(&run).unwrap()), run.to_vec());
        assert_eq!(encode(decode::<i32>(&run).unwrap()), run.to_vec());
        assert_eq!(encode(decode::<u16>(&run[..2]).unwrap()), run[..2].to_vec());
        assert_eq!(encode(decode::<i16>(&run[2..]).unwrap()), run[2..].to_vec());
        assert_eq!(encode(decode::<i8>(&run[3..]).unwrap()), run[3..].to_vec());
    }
}
