//! Bit layout of an `NTSTATUS` value.
//!
//! ```text
//!  31 30 | 29 | 28 | 27 ------ 16 | 15 ------- 0
//!   Sev  | C  | R  |   Facility   |     Code
//! ```
//!
//! The mathematical model of a status is its 32-bit pattern read as an
//! unsigned number ([`word`]); each field is a quotient and remainder of that
//! number.

use vstd::prelude::*;
use windows_sys::Win32::Foundation::NTSTATUS;

verus! {

/// The 32-bit pattern of `status`, read as unsigned. `NTSTATUS` is signed, so
/// every status with the top bit set is a negative number whose pattern is
/// that number plus 2^32.
pub open spec fn word(status: NTSTATUS) -> u32 {
    status as u32
}

/// The severity field, bits 30-31.
pub open spec fn severity_bits(status: NTSTATUS) -> u32 {
    word(status) / 0x4000_0000
}

/// The customer flag, bit 29.
pub open spec fn customer_bit(status: NTSTATUS) -> u32 {
    (word(status) / 0x2000_0000) % 2
}

/// The reserved bit, bit 28, which no field covers.
pub open spec fn reserved_bit(status: NTSTATUS) -> u32 {
    (word(status) / 0x1000_0000) % 2
}

/// The facility field, bits 16-27.
pub open spec fn facility_bits(status: NTSTATUS) -> u32 {
    (word(status) / 0x1_0000) % 0x1000
}

/// The code field, bits 0-15.
pub open spec fn code_bits(status: NTSTATUS) -> u32 {
    word(status) % 0x1_0000
}

/// A single field within an `NTSTATUS`, as a bit offset and a mask that is
/// applied after shifting.
pub struct Field {
    /// Position of the field's lowest bit.
    pub shift: u32,
    /// Mask of the field's width, aligned at bit 0.
    pub mask: u32,
}

impl Field {
    /// The value of this field within the 32-bit pattern `w`.
    pub open spec fn extract(self, w: u32) -> u32 {
        (w >> self.shift) & self.mask
    }

    /// The bits of a 32-bit word that this field occupies.
    pub open spec fn occupied(self) -> u32 {
        self.mask << self.shift
    }

    /// Extract this field from `status`.
    ///
    /// The status is read as its unsigned bit pattern before shifting, so the
    /// sign bit never spreads into the fields below it.
    pub fn get(&self, status: NTSTATUS) -> (value: u32)
        requires
            self.shift < 32,
        ensures
            value == self.extract(word(status)),
    {
        ((status as u32) >> self.shift) & self.mask
    }
}

/// The severity field: two bits at bit 30.
pub open spec fn severity_layout() -> Field {
    Field { shift: 30, mask: 0b11 }
}

/// The customer flag: one bit at bit 29.
pub open spec fn customer_layout() -> Field {
    Field { shift: 29, mask: 0b1 }
}

/// The facility field: twelve bits at bit 16.
pub open spec fn facility_layout() -> Field {
    Field { shift: 16, mask: 0xFFF }
}

/// The code field: sixteen bits at bit 0.
pub open spec fn code_layout() -> Field {
    Field { shift: 0, mask: 0xFFFF }
}

/// The severity field of an `NTSTATUS`.
pub fn severity_field() -> (field: Field)
    ensures
        field == severity_layout(),
{
    Field { shift: 30, mask: 0b11 }
}

/// The customer flag of an `NTSTATUS`.
pub fn customer_field() -> (field: Field)
    ensures
        field == customer_layout(),
{
    Field { shift: 29, mask: 0b1 }
}

/// The facility field of an `NTSTATUS`.
pub fn facility_field() -> (field: Field)
    ensures
        field == facility_layout(),
{
    Field { shift: 16, mask: 0xFFF }
}

/// The code field of an `NTSTATUS`.
pub fn code_field() -> (field: Field)
    ensures
        field == code_layout(),
{
    Field { shift: 0, mask: 0xFFFF }
}

/// Reinterpret a raw 32-bit pattern as an `NTSTATUS`.
///
/// Status codes are written as unsigned hex by convention, but `NTSTATUS` is
/// signed, so every value with the top bit set wraps to a negative number.
pub fn from_bits(bits: u32) -> (status: NTSTATUS)
    ensures
        status == #[verifier::truncate] (bits as i32),
        word(status) == bits,
        status as int == if bits < 0x8000_0000 {
            bits as int
        } else {
            bits as int - 0x1_0000_0000
        },
{
    let status = bits as i32;
    assert(word(status) == bits) by (bit_vector)
        requires
            status == bits as i32,
    ;
    assert(bits < 0x8000_0000 ==> status as int == bits as int) by (bit_vector)
        requires
            status == bits as i32,
    ;
    assert(bits >= 0x8000_0000 ==> status as int == bits as int - 0x1_0000_0000) by (bit_vector)
        requires
            status == bits as i32,
    ;
    status
}

/// Each named field, applied to a status, gives the quotient-and-remainder
/// value that the layout diagram assigns to it.
pub proof fn lemma_fields_read_their_bits(status: NTSTATUS)
    ensures
        severity_layout().extract(word(status)) == severity_bits(status),
        customer_layout().extract(word(status)) == customer_bit(status),
        facility_layout().extract(word(status)) == facility_bits(status),
        code_layout().extract(word(status)) == code_bits(status),
{
    let w = word(status);
    assert((w >> 30u32) & 0b11u32 == w / 0x4000_0000) by (bit_vector);
    assert((w >> 29u32) & 0b1u32 == (w / 0x2000_0000) % 2) by (bit_vector);
    assert((w >> 16u32) & 0xFFFu32 == (w / 0x1_0000) % 0x1000) by (bit_vector);
    assert((w >> 0u32) & 0xFFFFu32 == w % 0x1_0000) by (bit_vector);
}

/// Every bit of an `NTSTATUS` belongs to exactly one field, except bit 28,
/// which is reserved and belongs to none.
pub proof fn lemma_fields_tile_the_word()
    ensures
        severity_layout().occupied() & customer_layout().occupied() == 0,
        severity_layout().occupied() & facility_layout().occupied() == 0,
        severity_layout().occupied() & code_layout().occupied() == 0,
        customer_layout().occupied() & facility_layout().occupied() == 0,
        customer_layout().occupied() & code_layout().occupied() == 0,
        facility_layout().occupied() & code_layout().occupied() == 0,
        severity_layout().occupied() | customer_layout().occupied() | facility_layout().occupied()
            | code_layout().occupied() == !(1u32 << 28u32),
{
    assert(0b11u32 << 30u32 == 0xC000_0000u32) by (bit_vector);
    assert(0b1u32 << 29u32 == 0x2000_0000u32) by (bit_vector);
    assert(0xFFFu32 << 16u32 == 0x0FFF_0000u32) by (bit_vector);
    assert(0xFFFFu32 << 0u32 == 0xFFFFu32) by (bit_vector);
    assert(0xC000_0000u32 & 0x2000_0000u32 == 0) by (bit_vector);
    assert(0xC000_0000u32 & 0x0FFF_0000u32 == 0) by (bit_vector);
    assert(0xC000_0000u32 & 0xFFFFu32 == 0) by (bit_vector);
    assert(0x2000_0000u32 & 0x0FFF_0000u32 == 0) by (bit_vector);
    assert(0x2000_0000u32 & 0xFFFFu32 == 0) by (bit_vector);
    assert(0x0FFF_0000u32 & 0xFFFFu32 == 0) by (bit_vector);
    assert(0xC000_0000u32 | 0x2000_0000u32 | 0x0FFF_0000u32 | 0xFFFFu32 == !(1u32 << 28u32))
        by (bit_vector);
}

/// A status is exactly the sum of its fields, each at its position: the
/// fields (with the reserved bit) determine the status and nothing else does.
pub proof fn lemma_word_is_the_sum_of_its_fields(status: NTSTATUS)
    ensures
        word(status) as int == severity_bits(status) as int * 0x4000_0000 + customer_bit(status) as int
            * 0x2000_0000 + reserved_bit(status) as int * 0x1000_0000 + facility_bits(status) as int
            * 0x1_0000 + code_bits(status) as int,
        severity_bits(status) < 4,
        customer_bit(status) < 2,
        reserved_bit(status) < 2,
        facility_bits(status) < 0x1000,
        code_bits(status) < 0x1_0000,
{
    let w = word(status);
    assert(w as int == (w / 0x4000_0000) as int * 0x4000_0000 + ((w / 0x2000_0000) % 2) as int
        * 0x2000_0000 + ((w / 0x1000_0000) % 2) as int * 0x1000_0000 + ((w / 0x1_0000) % 0x1000) as int
        * 0x1_0000 + (w % 0x1_0000) as int) by (bit_vector);
    assert(w / 0x4000_0000 < 4) by (bit_vector);
}

} // verus!
