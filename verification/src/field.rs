//! Bit fields packed into a register word.
//!
//! A field is `width` consecutive bits whose lowest bit is at position
//! `shift`. Bits of a field that would lie above bit 31 do not exist: a field
//! that starts at or above bit 32 is empty.

use vstd::prelude::*;

verus! {

/// The word whose lowest `width` bits are set.
pub open spec fn spec_low_mask(width: u32) -> u32 {
    if width >= 32 {
        0xffff_ffffu32
    } else {
        !(0xffff_ffffu32 << width)
    }
}

/// The word whose lowest `width` bits are set.
#[verifier::when_used_as_spec(spec_low_mask)]
pub fn low_mask(width: u32) -> (mask: u32)
    ensures
        mask == spec_low_mask(width),
{
    if width >= 32 {
        0xffff_ffffu32
    } else {
        !(0xffff_ffffu32 << width)
    }
}

/// The value of the field of `register` at `shift`, `width` bits wide.
pub open spec fn spec_read_field(register: u32, shift: u32, width: u32) -> u32 {
    if shift >= 32 {
        0
    } else {
        (register >> shift) & spec_low_mask(width)
    }
}

/// Reads the field of `register` at `shift`, `width` bits wide.
#[verifier::when_used_as_spec(spec_read_field)]
pub fn read_field(register: u32, shift: u32, width: u32) -> (value: u32)
    ensures
        value == spec_read_field(register, shift, width),
{
    if shift >= 32 {
        0
    } else {
        (register >> shift) & low_mask(width)
    }
}

/// `register` with the field at `shift`, `width` bits wide, replaced by the
/// low `width` bits of `value`; every bit outside the field is kept.
pub open spec fn spec_write_field(register: u32, shift: u32, width: u32, value: u32) -> u32 {
    if shift >= 32 {
        register
    } else {
        (register & !(spec_low_mask(width) << shift)) | ((value & spec_low_mask(width)) << shift)
    }
}

/// Replaces the field of `register` at `shift`, `width` bits wide, by the low
/// `width` bits of `value`, and keeps every bit outside the field.
#[verifier::when_used_as_spec(spec_write_field)]
pub fn write_field(register: u32, shift: u32, width: u32, value: u32) -> (word: u32)
    ensures
        word == spec_write_field(register, shift, width, value),
{
    if shift >= 32 {
        register
    } else {
        let mask: u32 = low_mask(width);
        (register & !(mask << shift)) | ((value & mask) << shift)
    }
}

/// A field that was written reads back as the low `width` bits of the value
/// written, as long as the field lies within the word.
pub proof fn lemma_field_round_trip(register: u32, shift: u32, width: u32, value: u32)
    requires
        shift + width <= 32,
    ensures
        spec_read_field(spec_write_field(register, shift, width, value), shift, width) == value
            & spec_low_mask(width),
{
    let mask: u32 = spec_low_mask(width);
    if shift >= 32 {
        assert(value & !(0xffff_ffffu32 << 0u32) == 0) by (bit_vector);
    } else {
        assert(((register & !(mask << shift)) | ((value & mask) << shift)) >> shift & mask == value
            & mask) by (bit_vector)
            requires
                shift + width <= 32,
                shift < 32,
                mask == if width >= 32 {
                    0xffff_ffffu32
                } else {
                    !(0xffff_ffffu32 << width)
                },
        ;
    }
}

/// Writing one field leaves every field that does not overlap it as it was.
pub proof fn lemma_field_write_keeps_others(
    register: u32,
    shift: u32,
    width: u32,
    value: u32,
    other_shift: u32,
    other_width: u32,
)
    requires
        shift + width <= 32,
        other_shift + other_width <= 32,
        other_shift + other_width <= shift || shift + width <= other_shift,
    ensures
        spec_read_field(spec_write_field(register, shift, width, value), other_shift, other_width)
            == spec_read_field(register, other_shift, other_width),
{
    let mask: u32 = spec_low_mask(width);
    let other_mask: u32 = spec_low_mask(other_width);
    if shift < 32 && other_shift < 32 {
        assert(((register & !(mask << shift)) | ((value & mask) << shift)) >> other_shift
            & other_mask == (register >> other_shift) & other_mask) by (bit_vector)
            requires
                shift + width <= 32,
                other_shift + other_width <= 32,
                other_shift + other_width <= shift || shift + width <= other_shift,
                mask == if width >= 32 {
                    0xffff_ffffu32
                } else {
                    !(0xffff_ffffu32 << width)
                },
                other_mask == if other_width >= 32 {
                    0xffff_ffffu32
                } else {
                    !(0xffff_ffffu32 << other_width)
                },
        ;
    }
}

} // verus!
