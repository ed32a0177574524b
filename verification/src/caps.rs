//! The catalog of capabilities and the queries built on it.

use vstd::prelude::*;

verus! {

/// A feature that a bootloader build may have enabled.
///
/// Each capability owns one bit of the 32-bit capability word; see
/// [`Caps::bit`]. Bit 1 is reserved and belongs to no capability.
#[derive(Copy, Clone, Debug, Eq, PartialEq, Structural)]
pub enum Caps {
    RSA2048,
    EcdsaP256,
    SwapUsingScratch,
    OverwriteUpgrade,
    EncRsa,
    EncKw,
    ValidatePrimarySlot,
    RSA3072,
    Ed25519,
    EncEc256,
    SwapUsingMove,
    DowngradePrevention,
    EncX25519,
    Bootstrap,
    Aes256,
    RamLoad,
    DirectXip,
    HwRollbackProtection,
    EcdsaP384,
}

/// The bit of the capability word that no capability may use.
pub const RESERVED_BIT: u32 = 1;

/// Whether the bit at position `index` of `mask` is set.
pub open spec fn bit_is_set(mask: u32, index: u32) -> bool {
    mask & (1u32 << index) != 0
}

impl Caps {
    /// The position, counted from the least significant bit, of this
    /// capability's bit in the capability word.
    pub open spec fn spec_bit(self) -> u32 {
        match self {
            Caps::RSA2048 => 0,
            Caps::EcdsaP256 => 2,
            Caps::SwapUsingScratch => 3,
            Caps::OverwriteUpgrade => 4,
            Caps::EncRsa => 5,
            Caps::EncKw => 6,
            Caps::ValidatePrimarySlot => 7,
            Caps::RSA3072 => 8,
            Caps::Ed25519 => 9,
            Caps::EncEc256 => 10,
            Caps::SwapUsingMove => 11,
            Caps::DowngradePrevention => 12,
            Caps::EncX25519 => 13,
            Caps::Bootstrap => 14,
            Caps::Aes256 => 15,
            Caps::RamLoad => 16,
            Caps::DirectXip => 17,
            Caps::HwRollbackProtection => 18,
            Caps::EcdsaP384 => 19,
        }
    }

    /// The position of this capability's bit in the capability word.
    #[verifier::when_used_as_spec(spec_bit)]
    pub fn bit(self) -> (index: u32)
        ensures
            index == self.spec_bit(),
            index < 32,
            index != RESERVED_BIT,
    {
        match self {
            Caps::RSA2048 => 0,
            Caps::EcdsaP256 => 2,
            Caps::SwapUsingScratch => 3,
            Caps::OverwriteUpgrade => 4,
            Caps::EncRsa => 5,
            Caps::EncKw => 6,
            Caps::ValidatePrimarySlot => 7,
            Caps::RSA3072 => 8,
            Caps::Ed25519 => 9,
            Caps::EncEc256 => 10,
            Caps::SwapUsingMove => 11,
            Caps::DowngradePrevention => 12,
            Caps::EncX25519 => 13,
            Caps::Bootstrap => 14,
            Caps::Aes256 => 15,
            Caps::RamLoad => 16,
            Caps::DirectXip => 17,
            Caps::HwRollbackProtection => 18,
            Caps::EcdsaP384 => 19,
        }
    }

    /// The capability word in which this capability alone is enabled.
    pub open spec fn spec_flag(self) -> u32 {
        1u32 << self.spec_bit()
    }

    /// The capability word in which this capability alone is enabled.
    #[verifier::when_used_as_spec(spec_flag)]
    pub fn flag(self) -> (word: u32)
        ensures
            word == self.spec_flag(),
            word == 1u32 << self.spec_bit(),
    {
        1u32 << self.bit()
    }

    /// Whether `mask` has this capability's bit set.
    pub open spec fn spec_present(self, mask: u32) -> bool {
        bit_is_set(mask, self.spec_bit())
    }

    /// Tells whether the build whose capability word is `mask` has this
    /// capability enabled.
    #[verifier::when_used_as_spec(spec_present)]
    pub fn present(self, mask: u32) -> (enabled: bool)
        ensures
            enabled == self.spec_present(mask),
            enabled == (mask & (1u32 << self.spec_bit()) != 0),
    {
        mask & self.flag() != 0
    }

    /// Whether `mask` enables ECDSA signatures on either curve.
    pub open spec fn spec_has_ecdsa(mask: u32) -> bool {
        Caps::EcdsaP256.spec_present(mask) || Caps::EcdsaP384.spec_present(mask)
    }

    /// Tells whether the build whose capability word is `mask` verifies
    /// ECDSA signatures of some kind.
    #[verifier::when_used_as_spec(spec_has_ecdsa)]
    pub fn has_ecdsa(mask: u32) -> (enabled: bool)
        ensures
            enabled == Self::spec_has_ecdsa(mask),
            enabled == (bit_is_set(mask, 2) || bit_is_set(mask, 19)),
    {
        Caps::EcdsaP256.present(mask) || Caps::EcdsaP384.present(mask)
    }

    /// The image count `count`, unchanged, at the platform's word size.
    pub open spec fn spec_get_num_images(count: u32) -> usize {
        count as usize
    }

    /// The number of images that a build manages, given the count that the
    /// bootloader reported: the same number, widened.
    #[verifier::when_used_as_spec(spec_get_num_images)]
    pub fn get_num_images(count: u32) -> (images: usize)
        ensures
            images == Self::spec_get_num_images(count),
            images == count,
    {
        count as usize
    }

    /// Whether a build with capability word `mask` upgrades by writing to
    /// flash: it does unless it runs images from RAM or in place.
    pub open spec fn spec_modifies_flash(mask: u32) -> bool {
        !(Caps::RamLoad.spec_present(mask) || Caps::DirectXip.spec_present(mask))
    }

    /// Tells whether the build whose capability word is `mask` performs its
    /// upgrades by writing to flash.
    ///
    /// Only `RamLoad` and `DirectXip` are taken to leave flash alone; every
    /// other upgrade strategy counts as writing to it. A capability added to
    /// the catalog that also leaves flash alone has to be named here, or it
    /// will be reported as writing to flash.
    #[verifier::when_used_as_spec(spec_modifies_flash)]
    pub fn modifies_flash(mask: u32) -> (writes: bool)
        ensures
            writes == Self::spec_modifies_flash(mask),
            writes == !(bit_is_set(mask, 16) || bit_is_set(mask, 17)),
    {
        !(Caps::RamLoad.present(mask) || Caps::DirectXip.present(mask))
    }
}

} // verus!
