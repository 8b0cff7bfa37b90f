use vstd::prelude::*;

verus! {

/// Which mint invariant failed when a mint record was rejected as a target
/// for metadata issuance.
#[derive(Clone, Copy, Debug, PartialEq, Eq, Structural)]
pub enum MintStateReason {
    /// The mint's decimals are not zero.
    Decimals,
    /// The mint's supply is not exactly one.
    Supply,
    /// The mint authority is absent or differs from the designated update
    /// authority.
    MintAuthorityMismatch,
    /// The freeze authority is absent or differs from the designated update
    /// authority.
    FreezeAuthorityMismatch,
}

/// One step of the composite generation operation.
#[derive(Clone, Copy, Debug, PartialEq, Eq, Structural)]
pub enum Step {
    /// Create the metadata record for the mint.
    CreateMetadata,
    /// Create the bounded-supply edition record.
    CreateEdition,
    /// Mark the primary sale as having happened and optionally rotate the
    /// update authority.
    Finalize,
}

/// A rejection reported by the external record service (here specified at its
/// interface boundary and modeled by [`crate::service::RecordStore`]).
#[derive(Clone, Copy, Debug, PartialEq, Eq, Structural)]
pub enum ServiceError {
    /// A metadata record already exists for the mint.
    MetadataAlreadyExists,
    /// No metadata record exists yet for the mint.
    MetadataMissing,
    /// An edition record already exists for the mint.
    EditionAlreadyExists,
    /// A bounded field exceeds its maximum length, or a field invariant
    /// (fee range, share sum, remaining-vs-total) is broken.
    DataInvalid,
    /// The record is frozen: `is_mutable` is false.
    Immutable,
    /// The supplied authority does not match the record's update authority.
    UpdateAuthorityMismatch,
    /// The signer is not listed as an unverified creator of the record.
    CreatorNotListed,
}

/// The error taxonomy of the orchestrator. Every error aborts the in-flight
/// composite operation; no partial effect survives.
#[derive(Clone, Copy, Debug, PartialEq, Eq, Structural)]
pub enum WrapError {
    /// The mint record is not a valid issuance target; no external call was
    /// attempted.
    InvalidMintState(MintStateReason),
    /// A decoded buffer does not carry the expected record discriminant, or
    /// does not parse as a metadata record.
    RecordTypeMismatch,
    /// A decoded buffer is longer than the record's maximum size.
    RecordTooLarge,
    /// The external record service rejected the call made by the named step.
    ExternalServiceError(Step, ServiceError),
}

} // verus!
