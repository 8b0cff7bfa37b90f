use vstd::prelude::*;
use crate::address::Address;

verus! {

/// A runtime-resolved fact about an account presented as an authority:
/// either a wallet-class account that co-signed the surrounding operation,
/// or a program-controlled account authorized through a precomputed seed
/// proof. Never persisted; recomputed for every call.
#[derive(Clone, Copy, Debug, PartialEq, Eq, Structural)]
pub enum AuthorityClaim {
    DirectSignature,
    DerivedSignature,
}

/// How a call into the external service asserts the authority's approval:
/// with the ambient signature already attached, or with an attached
/// seed-derived proof.
#[derive(Clone, Copy, Debug, PartialEq, Eq, Structural)]
pub enum InvocationMode {
    Direct,
    SeedSigned,
}

/// What the selector reads of an authority account: its owner-of-record and
/// whether it is marked executable.
pub struct AuthorityDescriptor {
    pub owner: Address,
    pub executable: bool,
}

/// Mathematical view of an [`AuthorityDescriptor`].
pub ghost struct AuthorityDescriptorV {
    pub owner: Seq<u8>,
    pub executable: bool,
}

impl View for AuthorityDescriptor {
    type V = AuthorityDescriptorV;

    open spec fn view(&self) -> AuthorityDescriptorV {
        AuthorityDescriptorV { owner: self.owner@, executable: self.executable }
    }
}

/// The classification rule: an account owned by the base system program and
/// not marked executable is taken for a directly signing wallet; anything
/// else is treated as a derived, program-controlled identity. The base
/// owner is explicit configuration, not a compiled-in constant. Note the
/// documented ambiguity: owner-of-record alone does not prove that a
/// signature was actually provided; by default such an account is still
/// classified as a direct signature.
pub open spec fn spec_classify(d: AuthorityDescriptorV, base_owner: Seq<u8>) -> AuthorityClaim {
    if d.owner == base_owner && !d.executable {
        AuthorityClaim::DirectSignature
    } else {
        AuthorityClaim::DerivedSignature
    }
}

/// The invocation mode each claim calls for: a direct signature invokes
/// with the ambient signature, a derived one with a seed proof.
pub open spec fn spec_mode_for(c: AuthorityClaim) -> InvocationMode {
    match c {
        AuthorityClaim::DirectSignature => InvocationMode::Direct,
        AuthorityClaim::DerivedSignature => InvocationMode::SeedSigned,
    }
}

/// Classifies an authority account descriptor against the configured base
/// system owner.
pub fn classify_authority(d: &AuthorityDescriptor, base_owner: &Address) -> (c: AuthorityClaim)
    ensures
        c == spec_classify(d@, base_owner@),
{
    if d.owner.addr_eq(base_owner) && !d.executable {
        AuthorityClaim::DirectSignature
    } else {
        AuthorityClaim::DerivedSignature
    }
}

/// The invocation mode for a resolved claim.
pub fn invocation_mode_for(c: AuthorityClaim) -> (m: InvocationMode)
    ensures
        m == spec_mode_for(c),
{
    match c {
        AuthorityClaim::DirectSignature => InvocationMode::Direct,
        AuthorityClaim::DerivedSignature => InvocationMode::SeedSigned,
    }
}

/// Resolves the descriptor and picks the invocation mode in one step, as
/// every authority-bound external call does.
pub fn select_invocation_mode(d: &AuthorityDescriptor, base_owner: &Address) -> (m:
    InvocationMode)
    ensures
        m == spec_mode_for(spec_classify(d@, base_owner@)),
{
    invocation_mode_for(classify_authority(d, base_owner))
}

/// Law: authority selection is deterministic — the same authority-account
/// descriptor always resolves to the same claim kind against the same base
/// owner; the classification depends on nothing but its two inputs.
pub proof fn lemma_classification_deterministic(
    d1: AuthorityDescriptorV,
    d2: AuthorityDescriptorV,
    base_owner: Seq<u8>,
)
    requires
        d1 == d2,
    ensures
        spec_classify(d1, base_owner) == spec_classify(d2, base_owner),
        spec_mode_for(spec_classify(d1, base_owner)) == spec_mode_for(
            spec_classify(d2, base_owner),
        ),
{
}

} // verus!
