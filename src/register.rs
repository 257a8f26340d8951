use vstd::prelude::*;

verus! {

/// Register addresses that the chip reports through and never accepts a write to.
pub open spec fn is_read_only_address(address: u8) -> bool {
    address == 0x07 || address == 0x08
}

/// The value of a one-bit flag.
pub open spec fn flag(b: bool) -> u8 {
    if b {
        1
    } else {
        0
    }
}

pub fn flag_bit(b: bool) -> (r: u8)
    ensures
        r == flag(b),
{
    if b {
        1
    } else {
        0
    }
}

/// A register that can be read: one byte at a fixed address, and its typed fields.
///
/// `spec_from_byte` and `spec_to_byte` are the register's bit layout. Decoding is
/// total; bits outside `defined_bits` are reserved, dropped on decode and sent as zero.
pub trait ReadOnlyRegister: Sized {
    /// The register's address on the chip.
    spec fn spec_address() -> u8;

    /// Every integer field fits its bit width.
    spec fn wf(&self) -> bool;

    /// The bits of the byte that carry fields.
    spec fn defined_bits() -> u8;

    spec fn spec_from_byte(byte: u8) -> Self;

    spec fn spec_to_byte(&self) -> u8;

    fn address() -> (r: u8)
        ensures
            r == Self::spec_address(),
    ;

    /// Decodes a byte read from the chip; every byte decodes.
    fn from_byte(byte: u8) -> (r: Self)
        ensures
            r == Self::spec_from_byte(byte),
            r.wf(),
    ;

    /// Encodes the fields, with reserved bits as zero.
    fn to_byte(&self) -> (r: u8)
        requires
            self.wf(),
        ensures
            r == self.spec_to_byte(),
            r & !Self::defined_bits() == 0,
    ;

    /// Encoding a decoded byte gives back the byte with its reserved bits cleared.
    proof fn lemma_encode_decode(byte: u8)
        ensures
            Self::spec_from_byte(byte).spec_to_byte() == byte & Self::defined_bits(),
    ;

    /// Decoding an encoded value gives back the value.
    proof fn lemma_decode_encode(reg: Self)
        requires
            reg.wf(),
        ensures
            Self::spec_from_byte(reg.spec_to_byte()) == reg,
    ;
}

/// A register that can also be written.
pub trait ReadWriteRegister: ReadOnlyRegister {
    /// A writable register never sits at a read-only address.
    proof fn lemma_writable_address()
        ensures
            !is_read_only_address(Self::spec_address()),
    ;
}

} // verus!
