//! The element codec: how many bytes of emulated memory make up one element
//! of each supported type, and how a run of bytes (or the value moved by one
//! width-matched primitive access) is read as an element and written back.
//!
//! The engine's native byte order is little-endian. Signed types reuse the
//! bit pattern of the unsigned type of the same width (two's complement).

use vstd::prelude::*;

verus! {

/// The size of one primitive access at the engine boundary.
#[derive(Clone, Copy, PartialEq, Eq, Structural, Debug)]
pub enum Width {
    /// One byte.
    Byte,
    /// Two bytes.
    Half,
    /// Four bytes.
    Word,
}

impl Width {
    /// The number of bytes one access of this width moves.
    #[verifier::allow_in_spec]
    pub fn bytes(self) -> u32
        returns
            (match self {
                Width::Byte => 1u32,
                Width::Half => 2u32,
                Width::Word => 4u32,
            }),
    {
        match self {
            Width::Byte => 1,
            Width::Half => 2,
            Width::Word => 4,
        }
    }

    /// The number of bit patterns of this width, `2^(8 * bytes)`.
    pub open spec fn limit(self) -> int {
        match self {
            Width::Byte => 0x100,
            Width::Half => 0x1_0000,
            Width::Word => 0x1_0000_0000,
        }
    }
}

/// The low `width` bytes of `raw`, read as an unsigned number.
pub open spec fn unsigned_value(raw: u32, width: Width) -> int {
    raw as int % width.limit()
}

/// The low `width` bytes of `raw`, read as a two's-complement number.
pub open spec fn signed_value(raw: u32, width: Width) -> int {
    let low = unsigned_value(raw, width);
    if low >= width.limit() / 2 {
        low - width.limit()
    } else {
        low
    }
}

/// The bit pattern that stands for `value` in `width` bytes, zero-extended
/// to 32 bits: the residue of `value` modulo `2^(8 * bytes)`.
pub open spec fn bit_pattern(value: int, width: Width) -> u32 {
    (value % width.limit()) as u32
}

/// The weight of the byte at position `index` of a little-endian number.
pub open spec fn place(index: int) -> int {
    if index <= 0 {
        1
    } else if index == 1 {
        0x100
    } else if index == 2 {
        0x1_0000
    } else {
        0x100_0000
    }
}

/// The byte at position `index` (least significant first) of `raw`.
pub open spec fn byte_of(raw: u32, index: int) -> u8 {
    ((raw as int / place(index)) % 0x100) as u8
}

/// The low `width` bytes of `raw`, least significant first.
pub open spec fn le_bytes(raw: u32, width: Width) -> Seq<u8> {
    Seq::new(width.bytes() as nat, |index: int| byte_of(raw, index))
}

/// The number that `bytes` spell, least significant byte first.
pub open spec fn le_value(bytes: Seq<u8>) -> nat
    decreases bytes.len(),
{
    if bytes.len() == 0 {
        0
    } else {
        bytes[0] as nat + 0x100 * le_value(bytes.drop_first())
    }
}

/// `le_value` written out for the three widths.
pub proof fn lemma_le_value_by_width(bytes: Seq<u8>)
    ensures
        bytes.len() == 1 ==> le_value(bytes) == bytes[0],
        bytes.len() == 2 ==> le_value(bytes) == bytes[0] + 0x100 * bytes[1],
        bytes.len() == 4 ==> le_value(bytes) == bytes[0] + 0x100 * bytes[1] + 0x1_0000 * bytes[2]
            + 0x100_0000 * bytes[3],
        bytes.len() <= 4 ==> le_value(bytes) < place(bytes.len() as int) * 0x100,
{
    reveal_with_fuel(le_value, 5);
    let rest1 = bytes.drop_first();
    let rest2 = rest1.drop_first();
    let rest3 = rest2.drop_first();
    if bytes.len() >= 2 {
        assert(rest1[0] == bytes[1]);
    }
    if bytes.len() >= 3 {
        assert(rest2[0] == bytes[2]);
    }
    if bytes.len() >= 4 {
        assert(rest3[0] == bytes[3]);
    }
}

/// The bytes of a bit pattern spell that pattern again, without the bits
/// above `width`.
pub proof fn lemma_le_value_of_le_bytes(raw: u32, width: Width)
    ensures
        le_value(le_bytes(raw, width)) == unsigned_value(raw, width),
{
    let bytes = le_bytes(raw, width);
    lemma_le_value_by_width(bytes);
    assert(raw % 0x100 + 0x100 * (raw / 0x100 % 0x100) == raw % 0x1_0000) by (bit_vector);
    assert(raw % 0x100 + 0x100 * (raw / 0x100 % 0x100) + 0x1_0000 * (raw / 0x1_0000 % 0x100)
        + 0x100_0000 * (raw / 0x100_0000 % 0x100) == raw) by (bit_vector);
    match width {
        Width::Byte => {
            assert(bytes[0] == raw % 0x100);
        },
        Width::Half => {
            assert(bytes[0] == raw % 0x100);
            assert(bytes[1] == raw / 0x100 % 0x100);
        },
        Width::Word => {
            assert(bytes[0] == raw % 0x100);
            assert(bytes[1] == raw / 0x100 % 0x100);
            assert(bytes[2] == raw / 0x1_0000 % 0x100);
            assert(bytes[3] == raw / 0x100_0000 % 0x100);
        },
    }
}

/// The bytes of a number put together from four digits are those digits.
proof fn lemma_digits(b0: u8, b1: u8, b2: u8, b3: u8)
    ensures
        ({
            let v = b0 as u32 + 0x100 * (b1 as u32) + 0x1_0000 * (b2 as u32) + 0x100_0000 * (
            b3 as u32);
            &&& v <= u32::MAX
            &&& byte_of(v as u32, 0) == b0
            &&& byte_of(v as u32, 1) == b1
            &&& byte_of(v as u32, 2) == b2
            &&& byte_of(v as u32, 3) == b3
        }),
{
    let v = (b0 as u32 + 0x100 * (b1 as u32) + 0x1_0000 * (b2 as u32) + 0x100_0000 * (
    b3 as u32)) as u32;
    assert(b0 as u32 + 0x100 * (b1 as u32) + 0x1_0000 * (b2 as u32) + 0x100_0000 * (b3 as u32)
        <= 0xFFFF_FFFF) by (bit_vector);
    assert(v == b0 as u32 + 0x100 * (b1 as u32) + 0x1_0000 * (b2 as u32) + 0x100_0000 * (
    b3 as u32) ==> v % 0x100 == b0 && v / 0x100 % 0x100 == b1 && v / 0x1_0000 % 0x100 == b2 && v
        / 0x100_0000 % 0x100 == b3) by (bit_vector);
}

/// A run of `width` bytes is the byte sequence of the number it spells.
pub proof fn lemma_le_bytes_of_le_value(bytes: Seq<u8>, width: Width)
    requires
        bytes.len() == width.bytes(),
    ensures
        le_value(bytes) <= u32::MAX,
        le_bytes(le_value(bytes) as u32, width) == bytes,
{
    lemma_le_value_by_width(bytes);
    match width {
        Width::Byte => lemma_digits(bytes[0], 0, 0, 0),
        Width::Half => lemma_digits(bytes[0], bytes[1], 0, 0),
        Width::Word => lemma_digits(bytes[0], bytes[1], bytes[2], bytes[3]),
    }
    assert(le_bytes(le_value(bytes) as u32, width) =~= bytes);
}

/// An element type of emulated memory: a fixed width and a reading of bit
/// patterns of that width.
pub trait Element: Copy + Sized {
    /// The width of one element, which is also the primitive that moves it.
    spec fn spec_width() -> Width;

    /// The element that the low `spec_width()` bytes of `raw` stand for.
    spec fn spec_from_raw(raw: u32) -> Self;

    /// The element's bit pattern, zero-extended to 32 bits.
    spec fn spec_to_raw(self) -> u32;

    /// A bit pattern has no bits above the element's width.
    proof fn lemma_to_raw_in_range(value: Self)
        ensures
            (value.spec_to_raw() as int) < Self::spec_width().limit(),
    ;

    /// Reading back an element's own bit pattern gives that element.
    proof fn lemma_from_raw_of_to_raw(value: Self)
        ensures
            Self::spec_from_raw(value.spec_to_raw()) == value,
    ;

    /// The bit pattern of what `raw` stands for is `raw` without the bits
    /// above the element's width.
    proof fn lemma_to_raw_of_from_raw(raw: u32)
        ensures
            Self::spec_from_raw(raw).spec_to_raw() == unsigned_value(raw, Self::spec_width()),
    ;

    /// The width of one element.
    fn width() -> (width: Width)
        ensures
            width == Self::spec_width(),
    ;

    /// Reads the value moved by one width-matched primitive as an element.
    /// Bits of `raw` above the element's width are not looked at.
    fn from_raw(raw: u32) -> (value: Self)
        ensures
            value == Self::spec_from_raw(raw),
    ;

    /// The value to hand to the width-matched write primitive.
    fn to_raw(self) -> (raw: u32)
        ensures
            raw == self.spec_to_raw(),
    ;
}

impl Element for u8 {
    open spec fn spec_width() -> Width {
        Width::Byte
    }

    open spec fn spec_from_raw(raw: u32) -> u8 {
        unsigned_value(raw, Width::Byte) as u8
    }

    open spec fn spec_to_raw(self) -> u32 {
        bit_pattern(self as int, Width::Byte)
    }

    proof fn lemma_to_raw_in_range(value: u8) {
    }

    proof fn lemma_from_raw_of_to_raw(value: u8) {
    }

    proof fn lemma_to_raw_of_from_raw(raw: u32) {
    }

    fn width() -> (width: Width) {
        Width::Byte
    }

    fn from_raw(raw: u32) -> (value: u8) {
        assert(raw as u8 == raw as int % 0x100) by (bit_vector);
        #[verifier::truncate]
        (raw as u8)
    }

    fn to_raw(self) -> (raw: u32) {
        self as u32
    }
}

impl Element for u16 {
    open spec fn spec_width() -> Width {
        Width::Half
    }

    open spec fn spec_from_raw(raw: u32) -> u16 {
        unsigned_value(raw, Width::Half) as u16
    }

    open spec fn spec_to_raw(self) -> u32 {
        bit_pattern(self as int, Width::Half)
    }

    proof fn lemma_to_raw_in_range(value: u16) {
    }

    proof fn lemma_from_raw_of_to_raw(value: u16) {
    }

    proof fn lemma_to_raw_of_from_raw(raw: u32) {
    }

    fn width() -> (width: Width) {
        Width::Half
    }

    fn from_raw(raw: u32) -> (value: u16) {
        assert(raw as u16 == raw as int % 0x1_0000) by (bit_vector);
        #[verifier::truncate]
        (raw as u16)
    }

    fn to_raw(self) -> (raw: u32) {
        self as u32
    }
}

impl Element for u32 {
    open spec fn spec_width() -> Width {
        Width::Word
    }

    open spec fn spec_from_raw(raw: u32) -> u32 {
        unsigned_value(raw, Width::Word) as u32
    }

    open spec fn spec_to_raw(self) -> u32 {
        bit_pattern(self as int, Width::Word)
    }

    proof fn lemma_to_raw_in_range(value: u32) {
    }

    proof fn lemma_from_raw_of_to_raw(value: u32) {
    }

    proof fn lemma_to_raw_of_from_raw(raw: u32) {
    }

    fn width() -> (width: Width) {
        Width::Word
    }

    fn from_raw(raw: u32) -> (value: u32) {
        raw
    }

    fn to_raw(self) -> (raw: u32) {
        self
    }
}

impl Element for i8 {
    open spec fn spec_width() -> Width {
        Width::Byte
    }

    open spec fn spec_from_raw(raw: u32) -> i8 {
        signed_value(raw, Width::Byte) as i8
    }

    open spec fn spec_to_raw(self) -> u32 {
        bit_pattern(self as int, Width::Byte)
    }

    proof fn lemma_to_raw_in_range(value: i8) {
    }

    proof fn lemma_from_raw_of_to_raw(value: i8) {
    }

    proof fn lemma_to_raw_of_from_raw(raw: u32) {
    }

    fn width() -> (width: Width) {
        Width::Byte
    }

    fn from_raw(raw: u32) -> (value: i8) {
        assert((raw as u8) as i8 == signed_value(raw, Width::Byte)) by (bit_vector);
        #[verifier::truncate]
        ((#[verifier::truncate]
        (raw as u8)) as i8)
    }

    fn to_raw(self) -> (raw: u32) {
        assert((self as u8) as u32 == (self as int) % 0x100) by (bit_vector);
        (#[verifier::truncate]
        (self as u8)) as u32
    }
}

impl Element for i16 {
    open spec fn spec_width() -> Width {
        Width::Half
    }

    open spec fn spec_from_raw(raw: u32) -> i16 {
        signed_value(raw, Width::Half) as i16
    }

    open spec fn spec_to_raw(self) -> u32 {
        bit_pattern(self as int, Width::Half)
    }

    proof fn lemma_to_raw_in_range(value: i16) {
    }

    proof fn lemma_from_raw_of_to_raw(value: i16) {
    }

    proof fn lemma_to_raw_of_from_raw(raw: u32) {
    }

    fn width() -> (width: Width) {
        Width::Half
    }

    fn from_raw(raw: u32) -> (value: i16) {
        assert((raw as u16) as i16 == signed_value(raw, Width::Half)) by (bit_vector);
        #[verifier::truncate]
        ((#[verifier::truncate]
        (raw as u16)) as i16)
    }

    fn to_raw(self) -> (raw: u32) {
        assert((self as u16) as u32 == (self as int) % 0x1_0000) by (bit_vector);
        (#[verifier::truncate]
        (self as u16)) as u32
    }
}

impl Element for i32 {
    open spec fn spec_width() -> Width {
        Width::Word
    }

    open spec fn spec_from_raw(raw: u32) -> i32 {
        signed_value(raw, Width::Word) as i32
    }

    open spec fn spec_to_raw(self) -> u32 {
        bit_pattern(self as int, Width::Word)
    }

    proof fn lemma_to_raw_in_range(value: i32) {
    }

    proof fn lemma_from_raw_of_to_raw(value: i32) {
    }

    proof fn lemma_to_raw_of_from_raw(raw: u32) {
    }

    fn width() -> (width: Width) {
        Width::Word
    }

    fn from_raw(raw: u32) -> (value: i32) {
        assert(raw as i32 == signed_value(raw, Width::Word)) by (bit_vector);
        #[verifier::truncate]
        (raw as i32)
    }

    fn to_raw(self) -> (raw: u32) {
        assert(self as u32 == (self as int) % 0x1_0000_0000) by (bit_vector);
        #[verifier::truncate]
        (self as u32)
    }
}

/// What a run of bytes decodes to: an element if the run has exactly the
/// element's width, read least significant byte first.
pub open spec fn spec_decode<T: Element>(bytes: Seq<u8>) -> Option<T> {
    if bytes.len() == T::spec_width().bytes() {
        Some(T::spec_from_raw(le_value(bytes) as u32))
    } else {
        None
    }
}

/// The bytes that stand for an element, least significant first.
pub open spec fn spec_encode<T: Element>(value: T) -> Seq<u8> {
    le_bytes(value.spec_to_raw(), T::spec_width())
}

/// Decodes one element from a run of bytes in the engine's byte order.
/// A run whose length is not the element's width decodes to nothing.
pub fn decode<T: Element>(bytes: &[u8]) -> (value: Option<T>)
    ensures
        value == spec_decode::<T>(bytes@),
{
    let width = T::width();
    if bytes.len() != width.bytes() as usize {
        return None;
    }
    proof {
        lemma_le_value_by_width(bytes@);
    }
    let raw: u32 = match width {
        Width::Byte => bytes[0] as u32,
        Width::Half => bytes[0] as u32 + 0x100 * (bytes[1] as u32),
        Width::Word => bytes[0] as u32 + 0x100 * (bytes[1] as u32) + 0x1_0000 * (bytes[2] as u32)
            + 0x100_0000 * (bytes[3] as u32),
    };
    Some(T::from_raw(raw))
}

/// Encodes one element as bytes in the engine's byte order.
pub fn encode<T: Element>(value: T) -> (bytes: Vec<u8>)
    ensures
        bytes@ == spec_encode(value),
        bytes@.len() == T::spec_width().bytes(),
{
    let width = T::width();
    let raw = value.to_raw();
    let mut bytes: Vec<u8> = Vec::new();
    bytes.push((raw % 0x100) as u8);
    match width {
        Width::Byte => {},
        Width::Half => {
            bytes.push((raw / 0x100 % 0x100) as u8);
        },
        Width::Word => {
            bytes.push((raw / 0x100 % 0x100) as u8);
            bytes.push((raw / 0x1_0000 % 0x100) as u8);
            bytes.push((raw / 0x100_0000 % 0x100) as u8);
        },
    }
    assert(bytes@ =~= spec_encode(value));
    bytes
}

/// Decoding the bytes of an element gives that element.
pub proof fn lemma_decode_of_encode<T: Element>(value: T)
    ensures
        spec_decode::<T>(spec_encode(value)) == Some(value),
{
    let width = T::spec_width();
    let raw = value.spec_to_raw();
    T::lemma_to_raw_in_range(value);
    T::lemma_from_raw_of_to_raw(value);
    lemma_le_value_of_le_bytes(raw, width);
}

/// Encoding what a run of the element's width decodes to gives the run.
pub proof fn lemma_encode_of_decode<T: Element>(bytes: Seq<u8>)
    requires
        bytes.len() == T::spec_width().bytes(),
    ensures
        spec_decode::<T>(bytes) matches Some(value) && spec_encode(value) == bytes,
{
    let width = T::spec_width();
    lemma_le_bytes_of_le_value(bytes, width);
    let raw = le_value(bytes) as u32;
    lemma_le_value_by_width(bytes);
    T::lemma_to_raw_of_from_raw(raw);
}

} // verus!
