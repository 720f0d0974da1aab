//! Bit fields inside a 16-bit register word.
//!
//! A field is given by its shift (the index of its lowest bit) and its
//! mask (the field's bits once shifted down); the fields used by the
//! register map are one or three bits wide.
use vstd::prelude::*;

verus! {

/// The value of the field at `shift` with mask `mask` inside `word`.
pub open spec fn field(word: u16, shift: u16, mask: u16) -> u16 {
    (word >> shift) & mask
}

/// The word `word` with the field at `shift`/`mask` replaced by the low
/// bits of `value`, every other bit kept.
pub open spec fn with_field(word: u16, shift: u16, mask: u16, value: u16) -> u16 {
    (word & !(mask << shift)) | ((value & mask) << shift)
}

/// Whether `shift`/`mask` describes a field of one or three bits that
/// fits inside the word.
pub open spec fn valid_field(shift: u16, mask: u16) -> bool {
    &&& shift < 16
    &&& (mask == 1 || mask == 7)
    &&& (mask << shift) >> shift == mask
}

/// Whether two fields share no bit.
pub open spec fn disjoint_fields(s1: u16, m1: u16, s2: u16, m2: u16) -> bool {
    (m1 << s1) & (m2 << s2) == 0
}

/// Reads a field of a word.
pub fn get_field(word: u16, shift: u16, mask: u16) -> (value: u16)
    requires
        valid_field(shift, mask),
    ensures
        value == field(word, shift, mask),
        value <= mask,
{
    assert(((word >> shift) & mask) <= mask) by (bit_vector);
    (word >> shift) & mask
}

/// Replaces a field of a word by the low bits of `value`.
pub fn set_field(word: u16, shift: u16, mask: u16, value: u16) -> (r: u16)
    requires
        valid_field(shift, mask),
    ensures
        r == with_field(word, shift, mask, value),
{
    (word & !(mask << shift)) | ((value & mask) << shift)
}

/// Reading back a field that was just written gives the low bits of the
/// value written.
pub proof fn lemma_field_of_with_field_same(word: u16, shift: u16, mask: u16, value: u16)
    requires
        valid_field(shift, mask),
    ensures
        field(with_field(word, shift, mask, value), shift, mask) == value & mask,
{
    assert(
        ((mask << shift) >> shift) == mask ==> ((((word & !(mask << shift)) | ((value & mask)
            << shift)) >> shift) & mask) == (value & mask)
    ) by (bit_vector);
}

/// Writing one field leaves every field that shares no bit with it as it was.
pub proof fn lemma_field_of_with_field_other(
    word: u16,
    shift: u16,
    mask: u16,
    value: u16,
    other_shift: u16,
    other_mask: u16,
)
    requires
        valid_field(shift, mask),
        valid_field(other_shift, other_mask),
        disjoint_fields(shift, mask, other_shift, other_mask),
    ensures
        field(with_field(word, shift, mask, value), other_shift, other_mask) == field(
            word,
            other_shift,
            other_mask,
        ),
{
    assert(
        ((mask << shift) & (other_mask << other_shift)) == 0 && ((other_mask << other_shift)
            >> other_shift) == other_mask ==> ((((word & !(mask << shift)) | ((value & mask)
            << shift)) >> other_shift) & other_mask) == ((word >> other_shift) & other_mask)
    ) by (bit_vector);
}

} // verus!
