//! The lifecycle rules of a claim, stated on the slot of one fingerprint.
//!
//! A fingerprint is either unclaimed or claimed by one owner. Creation takes
//! it from unclaimed to claimed, revocation back to unclaimed, and a transfer
//! keeps it claimed under a new owner. Each rule looks at the slot alone, so
//! it can be applied to a slot read from any kind of store.

use crate::claim::{slot_view, Claim, ClaimView, Error, SlotView};
use vstd::prelude::*;

verus! {

/// The content of the claim that a rule grants, or its refusal.
pub open spec fn grant_view(grant: Result<Claim, Error>) -> Result<ClaimView, Error> {
    match grant {
        Ok(claim) => Ok(claim@),
        Err(error) => Err(error),
    }
}

/// Creation: an unclaimed slot goes to `sender` at time `now`; a claimed one
/// refuses.
pub open spec fn create_rule(slot: SlotView, sender: Seq<u8>, now: u64) -> Result<
    ClaimView,
    Error,
> {
    match slot {
        Some(_) => Err(Error::ProofAlreadyExists),
        None => Ok((sender, now)),
    }
}

/// Revocation: only the owner of a claimed slot may clear it.
pub open spec fn revoke_rule(slot: SlotView, sender: Seq<u8>) -> Result<(), Error> {
    match slot {
        None => Err(Error::ClaimNotExist),
        Some(claim) => if claim.0 == sender {
            Ok(())
        } else {
            Err(Error::NotClaimOwner)
        },
    }
}

/// Transfer: a claimed slot goes to `receiver` at time `now`, whoever owned
/// it before; an unclaimed one refuses.
pub open spec fn transfer_rule(slot: SlotView, receiver: Seq<u8>, now: u64) -> Result<
    ClaimView,
    Error,
> {
    match slot {
        None => Err(Error::ClaimNotExist),
        Some(_) => Ok((receiver, now)),
    }
}

/// Decides a creation by `sender` at time `now` on a fingerprint whose slot
/// is `slot`: the claim to store, or the refusal.
pub fn create(slot: &Option<Claim>, sender: Vec<u8>, now: u64) -> (grant: Result<Claim, Error>)
    ensures
        grant_view(grant) == create_rule(slot_view(*slot), sender@, now),
{
    match slot {
        Some(_) => Err(Error::ProofAlreadyExists),
        None => Ok(Claim { owner: sender, recorded_at: now }),
    }
}

/// Decides a revocation by `sender` on a fingerprint whose slot is `slot`:
/// leave to clear the slot, or the refusal.
pub fn revoke(slot: &Option<Claim>, sender: &Vec<u8>) -> (leave: Result<(), Error>)
    ensures
        leave == revoke_rule(slot_view(*slot), sender@),
{
    match slot {
        None => Err(Error::ClaimNotExist),
        Some(claim) => {
            if claim.owner == *sender {
                assert(claim.owner@ =~= sender@);
                Ok(())
            } else {
                Err(Error::NotClaimOwner)
            }
        },
    }
}

/// Decides a transfer to `receiver` at time `now` of a fingerprint whose slot
/// is `slot`: the claim to store in place of the old one, or the refusal.
pub fn transfer(slot: &Option<Claim>, receiver: Vec<u8>, now: u64) -> (grant: Result<
    Claim,
    Error,
>)
    ensures
        grant_view(grant) == transfer_rule(slot_view(*slot), receiver@, now),
{
    match slot {
        None => Err(Error::ClaimNotExist),
        Some(_) => Ok(Claim { owner: receiver, recorded_at: now }),
    }
}

} // verus!
