//! The states of providers and the permissions of validators, as named
//! switches, and the bit each of them has where flags are stored as a number.

use vstd::prelude::*;

verus! {

/// Bit of a provider's flags: the provider is enabled.
pub const PROVIDER_ENABLED: u16 = 1;

/// Bit of a provider's flags: the provider is published.
pub const PROVIDER_PUBLISHED: u16 = 2;

/// Bit of a provider's flags: the provider is verified.
pub const PROVIDER_VERIFIED: u16 = 4;

/// Bit of a provider's flags: the provider is for sale.
pub const PROVIDER_FOR_SALE: u16 = 8;

/// Bit of a provider's flags: the provider has a validator.
pub const PROVIDER_HAS_VALIDATOR: u16 = 16;

/// Bit of a provider's flags: the provider has metadata.
pub const PROVIDER_HAS_METADATA: u16 = 32;

/// Bit of a validator's flags: it may attest the issuance of an identity.
pub const VALIDATOR_ISSUE: u8 = 1;

/// Bit of a validator's flags: it may set the registration fee of a request.
pub const VALIDATOR_CUSTOM_FEE: u8 = 2;

/// Bit of a validator's flags: it may attest the revocation of an identity.
pub const VALIDATOR_REVOKE: u8 = 4;

/// The state of a provider.
#[derive(Clone, Copy, Debug, PartialEq, Eq, Structural)]
pub struct ProviderFlags {
    /// The provider may operate at all.
    pub enabled: bool,
    /// The owner offers the provider's service.
    pub published: bool,
    /// The owner has been verified by the root provider.
    pub verified: bool,
    /// The provider can be bought.
    pub for_sale: bool,
    /// The provider is marked as having a validator.
    pub has_validator: bool,
    /// A metadata record is attached to the provider.
    pub has_metadata: bool,
}

/// What a validator is permitted to do.
#[derive(Clone, Copy, Debug, PartialEq, Eq, Structural)]
pub struct ValidatorFlags {
    /// It may attest the issuance of an identity.
    pub issue: bool,
    /// It may set the registration fee of a request.
    pub custom_fee: bool,
    /// It may attest the revocation of an identity.
    pub revoke: bool,
}

/// `mask` if `on`, else no bit.
pub open spec fn bit16(on: bool, mask: u16) -> u16 {
    if on {
        mask
    } else {
        0
    }
}

/// `mask` if `on`, else no bit.
pub open spec fn bit8(on: bool, mask: u8) -> u8 {
    if on {
        mask
    } else {
        0
    }
}

impl ProviderFlags {
    /// The state of a provider that has just been created or bought: enabled,
    /// and nothing else.
    pub open spec fn spec_fresh() -> ProviderFlags {
        ProviderFlags {
            enabled: true,
            published: false,
            verified: false,
            for_sale: false,
            has_validator: false,
            has_metadata: false,
        }
    }

    /// The number that stands for these flags: the bits of the switches that
    /// are on.
    pub open spec fn spec_bits(self) -> u16 {
        bit16(self.enabled, PROVIDER_ENABLED) | bit16(self.published, PROVIDER_PUBLISHED) | bit16(
            self.verified,
            PROVIDER_VERIFIED,
        ) | bit16(self.for_sale, PROVIDER_FOR_SALE) | bit16(
            self.has_validator,
            PROVIDER_HAS_VALIDATOR,
        ) | bit16(self.has_metadata, PROVIDER_HAS_METADATA)
    }

    /// The flags that a number stands for: each switch is on where its bit is
    /// set. Bits without a meaning are ignored.
    pub open spec fn spec_from_bits(bits: u16) -> ProviderFlags {
        ProviderFlags {
            enabled: bits & PROVIDER_ENABLED == PROVIDER_ENABLED,
            published: bits & PROVIDER_PUBLISHED == PROVIDER_PUBLISHED,
            verified: bits & PROVIDER_VERIFIED == PROVIDER_VERIFIED,
            for_sale: bits & PROVIDER_FOR_SALE == PROVIDER_FOR_SALE,
            has_validator: bits & PROVIDER_HAS_VALIDATOR == PROVIDER_HAS_VALIDATOR,
            has_metadata: bits & PROVIDER_HAS_METADATA == PROVIDER_HAS_METADATA,
        }
    }

    /// The state of a provider that has just been created or bought.
    pub fn fresh() -> (f: ProviderFlags)
        ensures
            f == Self::spec_fresh(),
    {
        ProviderFlags {
            enabled: true,
            published: false,
            verified: false,
            for_sale: false,
            has_validator: false,
            has_metadata: false,
        }
    }

    /// The number that stands for these flags.
    pub fn bits(&self) -> (b: u16)
        ensures
            b == self.spec_bits(),
    {
        let mut b: u16 = 0;
        if self.enabled {
            b = b | PROVIDER_ENABLED;
        }
        if self.published {
            b = b | PROVIDER_PUBLISHED;
        }
        if self.verified {
            b = b | PROVIDER_VERIFIED;
        }
        if self.for_sale {
            b = b | PROVIDER_FOR_SALE;
        }
        if self.has_validator {
            b = b | PROVIDER_HAS_VALIDATOR;
        }
        if self.has_metadata {
            b = b | PROVIDER_HAS_METADATA;
        }
        proof {
            let e = bit16(self.enabled, PROVIDER_ENABLED);
            let p = bit16(self.published, PROVIDER_PUBLISHED);
            let v = bit16(self.verified, PROVIDER_VERIFIED);
            let s = bit16(self.for_sale, PROVIDER_FOR_SALE);
            let h = bit16(self.has_validator, PROVIDER_HAS_VALIDATOR);
            let m = bit16(self.has_metadata, PROVIDER_HAS_METADATA);
            assert(forall|x: u16| #[trigger] (x | 0) == x) by (bit_vector);
            assert(b == 0u16 | e | p | v | s | h | m);
            assert(0u16 | e | p | v | s | h | m == e | p | v | s | h | m) by (bit_vector);
        }
        b
    }

    /// The flags that a number stands for.
    pub fn from_bits(bits: u16) -> (f: ProviderFlags)
        ensures
            f == Self::spec_from_bits(bits),
    {
        ProviderFlags {
            enabled: bits & PROVIDER_ENABLED == PROVIDER_ENABLED,
            published: bits & PROVIDER_PUBLISHED == PROVIDER_PUBLISHED,
            verified: bits & PROVIDER_VERIFIED == PROVIDER_VERIFIED,
            for_sale: bits & PROVIDER_FOR_SALE == PROVIDER_FOR_SALE,
            has_validator: bits & PROVIDER_HAS_VALIDATOR == PROVIDER_HAS_VALIDATOR,
            has_metadata: bits & PROVIDER_HAS_METADATA == PROVIDER_HAS_METADATA,
        }
    }

    /// Flags are recovered from the number that stands for them.
    pub proof fn lemma_from_bits_of_bits(self)
        ensures
            Self::spec_from_bits(self.spec_bits()) == self,
    {
        let e = bit16(self.enabled, PROVIDER_ENABLED);
        let p = bit16(self.published, PROVIDER_PUBLISHED);
        let v = bit16(self.verified, PROVIDER_VERIFIED);
        let s = bit16(self.for_sale, PROVIDER_FOR_SALE);
        let h = bit16(self.has_validator, PROVIDER_HAS_VALIDATOR);
        let m = bit16(self.has_metadata, PROVIDER_HAS_METADATA);
        let b = e | p | v | s | h | m;
        assert(b & 1 == e && b & 2 == p && b & 4 == v && b & 8 == s && b & 16 == h && b & 32 == m)
            by (bit_vector)
            requires
                b == e | p | v | s | h | m,
                e == 0 || e == 1,
                p == 0 || p == 2,
                v == 0 || v == 4,
                s == 0 || s == 8,
                h == 0 || h == 16,
                m == 0 || m == 32,
        ;
    }

    /// A number keeps its six meaningful bits, and only those, on the way
    /// through the flags.
    pub proof fn lemma_bits_of_from_bits(bits: u16)
        ensures
            Self::spec_from_bits(bits).spec_bits() == bits & 63,
    {
        let f = Self::spec_from_bits(bits);
        let e = bit16(f.enabled, PROVIDER_ENABLED);
        let p = bit16(f.published, PROVIDER_PUBLISHED);
        let v = bit16(f.verified, PROVIDER_VERIFIED);
        let s = bit16(f.for_sale, PROVIDER_FOR_SALE);
        let h = bit16(f.has_validator, PROVIDER_HAS_VALIDATOR);
        let m = bit16(f.has_metadata, PROVIDER_HAS_METADATA);
        assert(bits & 1 == 1 || bits & 1 == 0) by (bit_vector);
        assert(bits & 2 == 2 || bits & 2 == 0) by (bit_vector);
        assert(bits & 4 == 4 || bits & 4 == 0) by (bit_vector);
        assert(bits & 8 == 8 || bits & 8 == 0) by (bit_vector);
        assert(bits & 16 == 16 || bits & 16 == 0) by (bit_vector);
        assert(bits & 32 == 32 || bits & 32 == 0) by (bit_vector);
        assert(e | p | v | s | h | m == bits & 63) by (bit_vector)
            requires
                e == bits & 1,
                p == bits & 2,
                v == bits & 4,
                s == bits & 8,
                h == bits & 16,
                m == bits & 32,
        ;
    }
}

impl ValidatorFlags {
    /// The number that stands for these flags: the bits of the permissions
    /// that are granted.
    pub open spec fn spec_bits(self) -> u8 {
        bit8(self.issue, VALIDATOR_ISSUE) | bit8(self.custom_fee, VALIDATOR_CUSTOM_FEE) | bit8(
            self.revoke,
            VALIDATOR_REVOKE,
        )
    }

    /// The flags that a number stands for: each permission is granted where
    /// its bit is set. Bits without a meaning are ignored.
    pub open spec fn spec_from_bits(bits: u8) -> ValidatorFlags {
        ValidatorFlags {
            issue: bits & VALIDATOR_ISSUE == VALIDATOR_ISSUE,
            custom_fee: bits & VALIDATOR_CUSTOM_FEE == VALIDATOR_CUSTOM_FEE,
            revoke: bits & VALIDATOR_REVOKE == VALIDATOR_REVOKE,
        }
    }

    /// The number that stands for these flags.
    pub fn bits(&self) -> (b: u8)
        ensures
            b == self.spec_bits(),
    {
        let mut b: u8 = 0;
        if self.issue {
            b = b | VALIDATOR_ISSUE;
        }
        if self.custom_fee {
            b = b | VALIDATOR_CUSTOM_FEE;
        }
        if self.revoke {
            b = b | VALIDATOR_REVOKE;
        }
        proof {
            let i = bit8(self.issue, VALIDATOR_ISSUE);
            let c = bit8(self.custom_fee, VALIDATOR_CUSTOM_FEE);
            let r = bit8(self.revoke, VALIDATOR_REVOKE);
            assert(forall|x: u8| #[trigger] (x | 0) == x) by (bit_vector);
            assert(b == 0u8 | i | c | r);
            assert(0u8 | i | c | r == i | c | r) by (bit_vector);
        }
        b
    }

    /// The flags that a number stands for.
    pub fn from_bits(bits: u8) -> (f: ValidatorFlags)
        ensures
            f == Self::spec_from_bits(bits),
    {
        ValidatorFlags {
            issue: bits & VALIDATOR_ISSUE == VALIDATOR_ISSUE,
            custom_fee: bits & VALIDATOR_CUSTOM_FEE == VALIDATOR_CUSTOM_FEE,
            revoke: bits & VALIDATOR_REVOKE == VALIDATOR_REVOKE,
        }
    }

    /// Flags are recovered from the number that stands for them.
    pub proof fn lemma_from_bits_of_bits(self)
        ensures
            Self::spec_from_bits(self.spec_bits()) == self,
    {
        let i = bit8(self.issue, VALIDATOR_ISSUE);
        let c = bit8(self.custom_fee, VALIDATOR_CUSTOM_FEE);
        let r = bit8(self.revoke, VALIDATOR_REVOKE);
        let b = i | c | r;
        assert(b & 1 == i && b & 2 == c && b & 4 == r) by (bit_vector)
            requires
                b == i | c | r,
                i == 0 || i == 1,
                c == 0 || c == 2,
                r == 0 || r == 4,
        ;
    }

    /// A number keeps its three meaningful bits, and only those, on the way
    /// through the flags.
    pub proof fn lemma_bits_of_from_bits(bits: u8)
        ensures
            Self::spec_from_bits(bits).spec_bits() == bits & 7,
    {
        let f = Self::spec_from_bits(bits);
        let i = bit8(f.issue, VALIDATOR_ISSUE);
        let c = bit8(f.custom_fee, VALIDATOR_CUSTOM_FEE);
        let r = bit8(f.revoke, VALIDATOR_REVOKE);
        assert(bits & 1 == 1 || bits & 1 == 0) by (bit_vector);
        assert(bits & 2 == 2 || bits & 2 == 0) by (bit_vector);
        assert(bits & 4 == 4 || bits & 4 == 0) by (bit_vector);
        assert(i | c | r == bits & 7) by (bit_vector)
            requires
                i == bits & 1,
                c == bits & 2,
                r == bits & 4,
        ;
    }
}

} // verus!
