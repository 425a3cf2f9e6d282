//! The values the registry stores and hands out: claims, events and errors.

use vstd::prelude::*;

verus! {

/// Mathematical content of a stored claim: the owner's identity and the
/// logical time at which ownership was last established.
pub type ClaimView = (Seq<u8>, u64);

/// What the store keeps for one fingerprint.
#[derive(Debug, PartialEq, Eq)]
pub struct Claim {
    /// Identity of the account that currently owns the fingerprint.
    pub owner: Vec<u8>,
    /// Logical time of the creation or of the latest transfer.
    pub recorded_at: u64,
}

impl View for Claim {
    type V = ClaimView;

    open spec fn view(&self) -> ClaimView {
        (self.owner@, self.recorded_at)
    }
}

impl Clone for Claim {
    fn clone(&self) -> (copy: Self)
        ensures
            copy@ == self@,
    {
        Claim { owner: self.owner.clone(), recorded_at: self.recorded_at }
    }
}

/// Mathematical content of a slot: the claim on one fingerprint, if any.
pub type SlotView = Option<ClaimView>;

/// The content of a slot as it is held in memory.
pub open spec fn slot_view(slot: Option<Claim>) -> SlotView {
    match slot {
        Some(claim) => Some(claim@),
        None => None,
    }
}

/// Why an operation was refused.
#[derive(Debug, Clone, Copy, PartialEq, Eq, Structural)]
pub enum Error {
    /// Creation of a claim on a fingerprint that is already claimed.
    ProofAlreadyExists,
    /// Revocation or transfer of a fingerprint that nobody has claimed.
    ClaimNotExist,
    /// Revocation by an identity other than the claim's owner.
    NotClaimOwner,
}

/// Mathematical content of an [`Event`].
pub enum EventView {
    ClaimCreated(Seq<u8>, Seq<u8>),
    ClaimRevoked(Seq<u8>, Seq<u8>),
    ClaimTransferred(Seq<u8>, Seq<u8>),
}

/// Notification of one successful operation: the identity that made the call,
/// then the fingerprint.
#[derive(Debug, PartialEq, Eq)]
pub enum Event {
    /// A claim was created for the identity.
    ClaimCreated(Vec<u8>, Vec<u8>),
    /// The identity revoked its claim.
    ClaimRevoked(Vec<u8>, Vec<u8>),
    /// The claim passed to the identity.
    ClaimTransferred(Vec<u8>, Vec<u8>),
}

impl View for Event {
    type V = EventView;

    open spec fn view(&self) -> EventView {
        match self {
            Event::ClaimCreated(who, fingerprint) => EventView::ClaimCreated(who@, fingerprint@),
            Event::ClaimRevoked(who, fingerprint) => EventView::ClaimRevoked(who@, fingerprint@),
            Event::ClaimTransferred(who, fingerprint) => EventView::ClaimTransferred(
                who@,
                fingerprint@,
            ),
        }
    }
}

} // verus!
