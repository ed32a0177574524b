//! What holds of the catalog and of its queries for every capability word.

use crate::caps::{bit_is_set, Caps, RESERVED_BIT};
use vstd::arithmetic::power2::pow2;
use vstd::prelude::*;

verus! {

/// Bit `index` of a word is set exactly when the word, divided by two to the
/// power `index`, is odd.
pub proof fn lemma_bit_is_set_arithmetic(mask: u32, index: u32)
    requires
        index < 32,
    ensures
        bit_is_set(mask, index) <==> (mask as nat / pow2(index as nat)) % 2 == 1,
{
    let shifted = mask >> index;
    assert((mask & (1u32 << index) != 0) <==> ((mask >> index) & 1 == 1)) by (bit_vector)
        requires
            index < 32,
    ;
    assert(shifted & 1 == shifted % 2) by (bit_vector);
    vstd::bits::lemma_u32_shr_is_div(mask, index);
}

/// Every capability's bit lies within the 32-bit capability word.
pub proof fn lemma_bit_within_word(c: Caps)
    ensures
        c.spec_bit() < 32,
{
}

/// No capability is assigned the reserved bit.
pub proof fn lemma_reserved_bit_unassigned(c: Caps)
    ensures
        c.spec_bit() != RESERVED_BIT,
{
}

/// Two capabilities that share a bit position, or a flag, are the same
/// capability.
pub proof fn lemma_bits_distinct(c: Caps, d: Caps)
    ensures
        c.spec_bit() == d.spec_bit() <==> c == d,
        c.spec_flag() == d.spec_flag() <==> c == d,
{
    let i = c.spec_bit();
    let j = d.spec_bit();
    assert((1u32 << i == 1u32 << j) <==> i == j) by (bit_vector)
        requires
            i < 32,
            j < 32,
    ;
}

/// A capability's flag is two to the power of its bit position, so it has
/// exactly one bit set.
pub proof fn lemma_flag_is_power_of_two(c: Caps)
    ensures
        c.spec_flag() == pow2(c.spec_bit() as nat),
{
    let i = c.spec_bit();
    vstd::bits::lemma_u32_pow2_no_overflow(i as nat);
    vstd::bits::lemma_u32_shl_is_mul(1, i);
}

/// No capability is present in the empty word.
pub proof fn lemma_absent_from_empty_word(c: Caps)
    ensures
        !c.spec_present(0),
{
    let i = c.spec_bit();
    assert(0u32 & (1u32 << i) == 0) by (bit_vector);
}

/// Every capability is present in the word that has all bits set.
pub proof fn lemma_present_in_full_word(c: Caps)
    ensures
        c.spec_present(u32::MAX),
{
    let i = c.spec_bit();
    assert(0xffff_ffffu32 & (1u32 << i) != 0) by (bit_vector)
        requires
            i < 32,
    ;
}

/// In the word made of one capability's flag, that capability is present and
/// no other is.
pub proof fn lemma_present_in_flag(c: Caps, d: Caps)
    ensures
        c.spec_present(d.spec_flag()) <==> c == d,
{
    let i = c.spec_bit();
    let j = d.spec_bit();
    assert(((1u32 << j) & (1u32 << i) != 0) <==> i == j) by (bit_vector)
        requires
            i < 32,
            j < 32,
    ;
}

/// A capability is present in the union of two words exactly when it is
/// present in one of them.
pub proof fn lemma_present_in_union(c: Caps, first: u32, second: u32)
    ensures
        c.spec_present(first | second) == (c.spec_present(first) || c.spec_present(second)),
{
    let f = c.spec_flag();
    assert(((first | second) & f != 0) == (first & f != 0 || second & f != 0)) by (bit_vector);
}

/// Whether a capability is present depends on its own bit alone: flipping any
/// other bits of the word leaves the answer as it was.
pub proof fn lemma_present_ignores_other_bits(c: Caps, mask: u32, flipped: u32)
    requires
        !bit_is_set(flipped, c.spec_bit()),
    ensures
        c.spec_present(mask ^ flipped) == c.spec_present(mask),
{
    let f = c.spec_flag();
    assert(((mask ^ flipped) & f != 0) == (mask & f != 0)) by (bit_vector)
        requires
            flipped & f == 0,
    ;
}

/// No capability is present in the word that has only the reserved bit set.
pub proof fn lemma_absent_from_reserved_word(c: Caps)
    ensures
        !c.spec_present(1u32 << RESERVED_BIT),
{
    let i = c.spec_bit();
    assert((1u32 << 1u32) & (1u32 << i) == 0) by (bit_vector)
        requires
            i != 1,
            i < 32,
    ;
}

/// No query looks at the reserved bit: setting or clearing it in the word
/// changes no answer.
pub proof fn lemma_reserved_bit_never_tested(c: Caps, mask: u32)
    ensures
        c.spec_present(mask ^ (1u32 << RESERVED_BIT)) == c.spec_present(mask),
        Caps::spec_has_ecdsa(mask ^ (1u32 << RESERVED_BIT)) == Caps::spec_has_ecdsa(mask),
        Caps::spec_modifies_flash(mask ^ (1u32 << RESERVED_BIT)) == Caps::spec_modifies_flash(
            mask,
        ),
{
    let reserved = 1u32 << RESERVED_BIT;
    lemma_absent_from_reserved_word(c);
    lemma_absent_from_reserved_word(Caps::EcdsaP256);
    lemma_absent_from_reserved_word(Caps::EcdsaP384);
    lemma_absent_from_reserved_word(Caps::RamLoad);
    lemma_absent_from_reserved_word(Caps::DirectXip);
    lemma_present_ignores_other_bits(c, mask, reserved);
    lemma_present_ignores_other_bits(Caps::EcdsaP256, mask, reserved);
    lemma_present_ignores_other_bits(Caps::EcdsaP384, mask, reserved);
    lemma_present_ignores_other_bits(Caps::RamLoad, mask, reserved);
    lemma_present_ignores_other_bits(Caps::DirectXip, mask, reserved);
}

/// ECDSA is enabled exactly when the word has bit 2 or bit 19 set, that is
/// when it shares a bit with `0x0008_0004`.
pub proof fn lemma_has_ecdsa_bits(mask: u32)
    ensures
        Caps::spec_has_ecdsa(mask) <==> bit_is_set(mask, 2) || bit_is_set(mask, 19),
        Caps::spec_has_ecdsa(mask) <==> mask & 0x0008_0004 != 0,
{
    assert((mask & (1u32 << 2u32) != 0 || mask & (1u32 << 19u32) != 0) <==> mask & 0x0008_0004
        != 0) by (bit_vector);
}

/// Flash is written exactly when the word has neither bit 16 nor bit 17 set,
/// that is when it shares no bit with `0x0003_0000`. No other bit matters.
pub proof fn lemma_modifies_flash_bits(mask: u32)
    ensures
        Caps::spec_modifies_flash(mask) <==> !bit_is_set(mask, 16) && !bit_is_set(mask, 17),
        Caps::spec_modifies_flash(mask) <==> mask & 0x0003_0000 == 0,
{
    assert((mask & (1u32 << 16u32) == 0 && mask & (1u32 << 17u32) == 0) <==> mask & 0x0003_0000
        == 0) by (bit_vector);
}

/// Asking again changes nothing: queries put to the same capability word, or
/// handed the same image count, give the same answers.
pub proof fn lemma_queries_repeatable(c: Caps, first: u32, again: u32)
    requires
        first == again,
    ensures
        c.spec_present(first) == c.spec_present(again),
        Caps::spec_has_ecdsa(first) == Caps::spec_has_ecdsa(again),
        Caps::spec_modifies_flash(first) == Caps::spec_modifies_flash(again),
        Caps::spec_get_num_images(first) == Caps::spec_get_num_images(again),
{
}

} // verus!
