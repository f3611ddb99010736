//! Device identifiers and account addresses.

use vstd::prelude::*;
use crate::byteorder::be64_int;
use crate::byteorder::be64_of_array32;

verus! {

/// A 256-bit device identifier, held as four 64-bit words in big-endian
/// order: `w0` holds the most significant eight bytes.
#[derive(Clone, Copy, PartialEq, Eq, Structural, Debug)]
pub struct DeviceId {
    pub w0: u64,
    pub w1: u64,
    pub w2: u64,
    pub w3: u64,
}

impl DeviceId {
    /// Reads an identifier from its 32-byte big-endian form.
    pub fn from_bytes(bytes: &[u8; 32]) -> (d: DeviceId)
        ensures
            d.w0 as int == be64_int(bytes@.subrange(0, 8)),
            d.w1 as int == be64_int(bytes@.subrange(8, 16)),
            d.w2 as int == be64_int(bytes@.subrange(16, 24)),
            d.w3 as int == be64_int(bytes@.subrange(24, 32)),
    {
        DeviceId {
            w0: be64_of_array32(bytes, 0),
            w1: be64_of_array32(bytes, 8),
            w2: be64_of_array32(bytes, 16),
            w3: be64_of_array32(bytes, 24),
        }
    }
}

/// A 160-bit account address, held as two 64-bit words and one 32-bit word
/// in big-endian order: `a0` holds the most significant eight bytes.
#[derive(Clone, Copy, PartialEq, Eq, Structural, Debug)]
pub struct Address {
    pub a0: u64,
    pub a1: u64,
    pub a2: u32,
}

/// The zero address, which stands for absence: no registered device has it
/// as its owner.
pub open spec fn zero_address() -> Address {
    Address { a0: 0, a1: 0, a2: 0 }
}

/// Whether `a` is the zero address.
pub open spec fn addr_is_zero(a: Address) -> bool {
    a == zero_address()
}

impl Address {
    /// The zero address.
    pub fn zero() -> (a: Address)
        ensures
            a == zero_address(),
    {
        Address { a0: 0, a1: 0, a2: 0 }
    }

    /// Whether this is the zero address.
    pub fn is_zero(&self) -> (r: bool)
        ensures
            r == addr_is_zero(*self),
    {
        self.a0 == 0 && self.a1 == 0 && self.a2 == 0
    }
}

} // verus!
