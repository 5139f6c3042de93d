//! Bit-field arithmetic on 32-bit register values.
//!
//! A field is named by the position of its lowest bit and by its width. All
//! functions are total: a value wider than its field loses its high bits, as
//! the hardware would drop them.

use vstd::prelude::*;

verus! {

/// The mask of a field that is `width` bits wide and starts at bit 0.
pub open spec fn low_mask(width: u32) -> u32 {
    if width >= 32 {
        0xffff_ffffu32
    } else {
        ((1u32 << width) - 1) as u32
    }
}

/// The mask of the field that starts at bit `offset` and is `width` bits wide.
pub open spec fn field_mask(offset: u32, width: u32) -> u32 {
    low_mask(width) << offset
}

/// The value of the field of `raw` that starts at bit `offset` and is `width` bits wide.
pub open spec fn field_of(raw: u32, offset: u32, width: u32) -> u32 {
    (raw >> offset) & low_mask(width)
}

/// `value`, cut to `width` bits and moved to bit `offset`.
pub open spec fn field_bits(offset: u32, width: u32, value: u32) -> u32 {
    (value & low_mask(width)) << offset
}

/// `raw` with the field at `offset` replaced by the low `width` bits of `value`.
pub open spec fn with_field(raw: u32, offset: u32, width: u32, value: u32) -> u32 {
    (raw & !field_mask(offset, width)) | field_bits(offset, width, value)
}

/// Whether bit `index` of `raw` is set.
pub open spec fn bit_of(raw: u32, index: u32) -> bool {
    (raw >> index) & 1 == 1
}

/// The word in which only bit `index` is set.
pub open spec fn bit(index: u32) -> u32 {
    1u32 << index
}

/// `raw` with bit `index` set to `on`.
pub open spec fn with_bit(raw: u32, index: u32, on: bool) -> u32 {
    if on {
        raw | bit(index)
    } else {
        raw & !bit(index)
    }
}

/// Two fields that share no bit.
pub open spec fn fields_disjoint(off_a: u32, width_a: u32, off_b: u32, width_b: u32) -> bool {
    off_a + width_a <= off_b || off_b + width_b <= off_a
}

/// A field that lies inside a 32-bit word.
pub open spec fn field_fits(offset: u32, width: u32) -> bool {
    offset < 32 && offset + width <= 32
}

/// A field reads back what was stored in it, cut to the field's width.
pub proof fn lemma_field_read_back(raw: u32, offset: u32, width: u32, value: u32)
    requires
        field_fits(offset, width),
    ensures
        field_of(with_field(raw, offset, width, value), offset, width) == value & low_mask(width),
{
    assert(field_of(with_field(raw, offset, width, value), offset, width) == value & low_mask(
        width,
    )) by (bit_vector)
        requires
            offset < 32,
            offset + width <= 32,
    ;
}

/// Storing into one field leaves every disjoint field as it was.
pub proof fn lemma_field_untouched(
    raw: u32,
    offset: u32,
    width: u32,
    value: u32,
    other_offset: u32,
    other_width: u32,
)
    requires
        field_fits(offset, width),
        field_fits(other_offset, other_width),
        fields_disjoint(offset, width, other_offset, other_width),
    ensures
        field_of(with_field(raw, offset, width, value), other_offset, other_width) == field_of(
            raw,
            other_offset,
            other_width,
        ),
{
    assert(field_of(with_field(raw, offset, width, value), other_offset, other_width) == field_of(
        raw,
        other_offset,
        other_width,
    )) by (bit_vector)
        requires
            offset < 32,
            offset + width <= 32,
            other_offset < 32,
            other_offset + other_width <= 32,
            offset + width <= other_offset || other_offset + other_width <= offset,
    ;
}

/// A value that fits its field is stored whole.
pub proof fn lemma_low_mask_keeps(width: u32, value: u32)
    requires
        width < 32,
        value < (1u32 << width),
    ensures
        value & low_mask(width) == value,
{
    assert(value & low_mask(width) == value) by (bit_vector)
        requires
            width < 32,
            value < (1u32 << width),
    ;
}

/// The mask of `width` low bits.
pub fn mask_of_width(width: u32) -> (mask: u32)
    ensures
        mask == low_mask(width),
{
    if width >= 32 {
        0xffff_ffffu32
    } else {
        assert((1u32 << width) >= 1) by (bit_vector)
            requires
                width < 32,
        ;
        (1u32 << width) - 1
    }
}

/// Reads the field of `raw` at `offset`.
pub fn get_field(raw: u32, offset: u32, width: u32) -> (value: u32)
    requires
        offset < 32,
    ensures
        value == field_of(raw, offset, width),
{
    (raw >> offset) & mask_of_width(width)
}

/// Replaces the field of `raw` at `offset` by `value`.
pub fn set_field(raw: u32, offset: u32, width: u32, value: u32) -> (updated: u32)
    requires
        offset < 32,
    ensures
        updated == with_field(raw, offset, width, value),
{
    let mask = mask_of_width(width);
    (raw & !(mask << offset)) | ((value & mask) << offset)
}

/// Reads bit `index` of `raw`.
pub fn get_bit(raw: u32, index: u32) -> (on: bool)
    requires
        index < 32,
    ensures
        on == bit_of(raw, index),
{
    (raw >> index) & 1 == 1
}

/// Sets or clears bit `index` of `raw`.
pub fn set_bit(raw: u32, index: u32, on: bool) -> (updated: u32)
    requires
        index < 32,
    ensures
        updated == with_bit(raw, index, on),
{
    if on {
        raw | (1u32 << index)
    } else {
        raw & !(1u32 << index)
    }
}

/// A bit reads back as it was set, and the other bits keep their value.
pub proof fn lemma_bit_read_back(raw: u32, index: u32, on: bool, other: u32)
    requires
        index < 32,
        other < 32,
    ensures
        bit_of(with_bit(raw, index, on), index) == on,
        other != index ==> bit_of(with_bit(raw, index, on), other) == bit_of(raw, other),
{
    assert(bit_of(raw | bit(index), index)) by (bit_vector)
        requires
            index < 32,
    ;
    assert(!bit_of(raw & !bit(index), index)) by (bit_vector)
        requires
            index < 32,
    ;
    if other != index {
        assert(bit_of(raw | bit(index), other) == bit_of(raw, other)) by (bit_vector)
            requires
                index < 32,
                other < 32,
                other != index,
        ;
        assert(bit_of(raw & !bit(index), other) == bit_of(raw, other)) by (bit_vector)
            requires
                index < 32,
                other < 32,
                other != index,
        ;
    }
}

} // verus!
