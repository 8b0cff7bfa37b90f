use vstd::prelude::*;
use crate::address::Address;
use crate::error::{MintStateReason, WrapError};

verus! {

/// A read-only view of the external mint record: the token whose metadata is
/// being issued.
pub struct MintRecord {
    pub decimals: u8,
    pub supply: u64,
    pub mint_authority: Option<Address>,
    pub freeze_authority: Option<Address>,
}

/// Mathematical view of a [`MintRecord`].
pub ghost struct MintRecordV {
    pub decimals: u8,
    pub supply: u64,
    pub mint_authority: Option<Seq<u8>>,
    pub freeze_authority: Option<Seq<u8>>,
}

impl View for MintRecord {
    type V = MintRecordV;

    open spec fn view(&self) -> MintRecordV {
        MintRecordV {
            decimals: self.decimals,
            supply: self.supply,
            mint_authority: match self.mint_authority {
                Some(a) => Some(a@),
                None => None,
            },
            freeze_authority: match self.freeze_authority {
                Some(a) => Some(a@),
                None => None,
            },
        }
    }
}

/// The invariant a mint must satisfy before metadata may be attached to it:
/// a non-fungible (zero decimals, unit supply), authority-locked token whose
/// mint and freeze authorities are both the designated update authority.
pub open spec fn mint_ok(mint: &MintRecord, update_authority: Seq<u8>) -> bool {
    &&& mint.decimals == 0
    &&& mint.supply == 1
    &&& (mint.mint_authority matches Some(a) && a@ == update_authority)
    &&& (mint.freeze_authority matches Some(a) && a@ == update_authority)
}

/// The first violated invariant of a rejected mint, in the order checked:
/// decimals, supply, mint authority, freeze authority.
pub open spec fn spec_mint_error(mint: &MintRecord, update_authority: Seq<u8>) -> WrapError {
    if mint.decimals != 0 {
        WrapError::InvalidMintState(MintStateReason::Decimals)
    } else if mint.supply != 1 {
        WrapError::InvalidMintState(MintStateReason::Supply)
    } else if !(mint.mint_authority matches Some(a) && a@ == update_authority) {
        WrapError::InvalidMintState(MintStateReason::MintAuthorityMismatch)
    } else {
        WrapError::InvalidMintState(MintStateReason::FreezeAuthorityMismatch)
    }
}

/// Accepts a mint iff every issuance invariant holds; otherwise reports the
/// first violated invariant, checked in the order: decimals, supply, mint
/// authority, freeze authority. Pure; the composite operation calls this
/// before any external call is made.
pub fn validate_mint(mint: &MintRecord, update_authority: &Address) -> (r: Result<
    (),
    WrapError,
>)
    ensures
        r is Ok <==> mint_ok(mint, update_authority@),
        !mint_ok(mint, update_authority@) ==> r == Err::<(), WrapError>(
            spec_mint_error(mint, update_authority@),
        ),
{
    if mint.decimals != 0 {
        return Err(WrapError::InvalidMintState(MintStateReason::Decimals));
    }
    if mint.supply != 1 {
        return Err(WrapError::InvalidMintState(MintStateReason::Supply));
    }
    let mint_auth_ok = match &mint.mint_authority {
        Some(a) => a.addr_eq(update_authority),
        None => false,
    };
    if !mint_auth_ok {
        return Err(WrapError::InvalidMintState(MintStateReason::MintAuthorityMismatch));
    }
    let freeze_auth_ok = match &mint.freeze_authority {
        Some(a) => a.addr_eq(update_authority),
        None => false,
    };
    if !freeze_auth_ok {
        return Err(WrapError::InvalidMintState(MintStateReason::FreezeAuthorityMismatch));
    }
    Ok(())
}

} // verus!
