//! The reasons for which a request is rejected.

use vstd::prelude::*;

verus! {

/// Why a request was rejected. A rejected request changes nothing.
#[derive(Clone, Copy, Debug, PartialEq, Eq, Structural)]
pub enum CustomError {
    /// The provider is not enabled.
    ProviderDisabled,
    /// The provider is not published.
    ProviderUnpublished,
    /// The validator lacks the permission that the request needs.
    ValidatorDisabled,
    /// The data presented as proof does not hash to the stored data.
    InvalidDataHash,
    /// The identifier presented as proof does not hash to the stored hash.
    InvalidIdHash,
    /// A request to void without proof did not come from the owner.
    VoidUnauthorized,
    /// The provider cannot be put up for sale, or is not for sale.
    SellingNotAllowed,
    /// A link for the provider and identifier is already live.
    AlreadyExists,
    /// The accounts presented do not stand in the relation that the request
    /// asks for: a signer is not the stored authority or signer, an account
    /// belongs to another provider, a treasury is not the one on record, or
    /// the link named is not live or guards another identity.
    ConstraintViolation,
}

impl CustomError {
    /// What is said of the error to whoever made the request.
    pub open spec fn spec_message(self) -> Seq<char> {
        match self {
            CustomError::ProviderDisabled => "Provider is disabled"@,
            CustomError::ProviderUnpublished => "Provider is unpublished"@,
            CustomError::ValidatorDisabled => "Validator is not allowed to attest the request"@,
            CustomError::InvalidDataHash => "Hash of the data does not match"@,
            CustomError::InvalidIdHash => "Hash of the ID does not match"@,
            CustomError::VoidUnauthorized => "Signers are not authorized to void"@,
            CustomError::SellingNotAllowed =>
                "Cannot sell a disabled / published / provider with validators"@,
            CustomError::AlreadyExists => "A record already exists at the address"@,
            CustomError::ConstraintViolation => "A constraint on the accounts was violated"@,
        }
    }

    /// What is said of the error to whoever made the request.
    pub fn message(&self) -> (text: &'static str)
        ensures
            text@ == self.spec_message(),
    {
        match self {
            CustomError::ProviderDisabled => "Provider is disabled",
            CustomError::ProviderUnpublished => "Provider is unpublished",
            CustomError::ValidatorDisabled => "Validator is not allowed to attest the request",
            CustomError::InvalidDataHash => "Hash of the data does not match",
            CustomError::InvalidIdHash => "Hash of the ID does not match",
            CustomError::VoidUnauthorized => "Signers are not authorized to void",
            CustomError::SellingNotAllowed =>
                "Cannot sell a disabled / published / provider with validators",
            CustomError::AlreadyExists => "A record already exists at the address",
            CustomError::ConstraintViolation => "A constraint on the accounts was violated",
        }
    }
}

} // verus!
