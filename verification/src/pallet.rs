//! The registry: a claim store and the three operations that change it.

use crate::claim::{slot_view, Claim, ClaimView, Error, Event, EventView};
use crate::rules::{create, create_rule, revoke, revoke_rule, transfer, transfer_rule};
use crate::store::{ClaimStore, StoreView};
use vstd::prelude::*;

verus! {

/// What an operation leaves behind: the store after the call, and the event
/// it emits or the error it fails with.
pub type Outcome = (StoreView, Result<EventView, Error>);

/// The content of what an operation returns.
pub open spec fn reply_view(reply: Result<Event, Error>) -> Result<EventView, Error> {
    match reply {
        Ok(event) => Ok(event@),
        Err(error) => Err(error),
    }
}

/// Creation of a claim on `fingerprint` by `sender` at time `now`. Where the
/// fingerprint is unclaimed it is stored with `sender` as owner and `now` as
/// its time; where it is claimed the store stays as it is.
pub open spec fn create_outcome(
    store: StoreView,
    sender: Seq<u8>,
    fingerprint: Seq<u8>,
    now: u64,
) -> Outcome {
    match create_rule(store.get(fingerprint), sender, now) {
        Ok(claim) => (
            store.insert(fingerprint, claim),
            Ok(EventView::ClaimCreated(sender, fingerprint)),
        ),
        Err(error) => (store, Err(error)),
    }
}

/// Revocation of the claim on `fingerprint` by `sender`. Where `sender` owns
/// the claim it is removed; otherwise the store stays as it is.
pub open spec fn revoke_outcome(
    store: StoreView,
    sender: Seq<u8>,
    fingerprint: Seq<u8>,
) -> Outcome {
    match revoke_rule(store.get(fingerprint), sender) {
        Ok(()) => (store.remove(fingerprint), Ok(EventView::ClaimRevoked(sender, fingerprint))),
        Err(error) => (store, Err(error)),
    }
}

/// Transfer of the claim on `fingerprint` to `receiver` at time `now`. Where
/// the fingerprint is claimed, by whomever, the claim is overwritten with
/// `receiver` as owner and `now` as its time; otherwise the store stays as
/// it is.
pub open spec fn transfer_outcome(
    store: StoreView,
    receiver: Seq<u8>,
    fingerprint: Seq<u8>,
    now: u64,
) -> Outcome {
    match transfer_rule(store.get(fingerprint), receiver, now) {
        Ok(claim) => (
            store.insert(fingerprint, claim),
            Ok(EventView::ClaimTransferred(receiver, fingerprint)),
        ),
        Err(error) => (store, Err(error)),
    }
}

/// A claim registry. It holds nothing but its store of claims.
pub struct Pallet {
    proofs: ClaimStore,
}

impl View for Pallet {
    type V = StoreView;

    closed spec fn view(&self) -> StoreView {
        self.proofs@
    }
}

impl Pallet {
    /// A registry without claims.
    pub fn new() -> (pallet: Pallet)
        ensures
            pallet@ == Map::<Seq<u8>, ClaimView>::empty(),
    {
        Pallet { proofs: ClaimStore::new() }
    }

    /// The registry's store, to read.
    pub fn store(&self) -> (store: &ClaimStore)
        ensures
            store@ == self@,
    {
        &self.proofs
    }

    /// The claim on the fingerprint `claim`, if there is one.
    pub fn proofs(&self, claim: &Vec<u8>) -> (slot: Option<Claim>)
        ensures
            slot_view(slot) == self@.get(claim@),
    {
        self.proofs.get(claim)
    }

    /// Claims the fingerprint `claim` for `sender` at time `now`.
    ///
    /// Fails with `ProofAlreadyExists` where the fingerprint is claimed
    /// already, and then changes nothing.
    pub fn create_claim(&mut self, sender: Vec<u8>, claim: Vec<u8>, now: u64) -> (reply: Result<
        Event,
        Error,
    >)
        ensures
            (final(self)@, reply_view(reply)) == create_outcome(
                old(self)@,
                sender@,
                claim@,
                now,
            ),
    {
        let slot = self.proofs.get(&claim);
        match create(&slot, sender.clone(), now) {
            Ok(granted) => {
                self.proofs.insert(claim.clone(), granted);
                Ok(Event::ClaimCreated(sender, claim))
            },
            Err(error) => Err(error),
        }
    }

    /// Gives up the claim of `sender` on the fingerprint `claim`.
    ///
    /// Fails with `ClaimNotExist` where the fingerprint is unclaimed and with
    /// `NotClaimOwner` where another identity owns it, and then changes
    /// nothing.
    pub fn revoke_claim(&mut self, sender: Vec<u8>, claim: Vec<u8>) -> (reply: Result<
        Event,
        Error,
    >)
        ensures
            (final(self)@, reply_view(reply)) == revoke_outcome(old(self)@, sender@, claim@),
    {
        let slot = self.proofs.get(&claim);
        match revoke(&slot, &sender) {
            Ok(()) => {
                self.proofs.remove(&claim);
                Ok(Event::ClaimRevoked(sender, claim))
            },
            Err(error) => Err(error),
        }
    }

    /// Passes the claim on the fingerprint `claim` to `receiver` at time
    /// `now`. The caller need not be the owner: any identity can take over
    /// any existing claim.
    ///
    /// Fails with `ClaimNotExist` where the fingerprint is unclaimed, and then
    /// changes nothing.
    pub fn translate_claim(&mut self, receiver: Vec<u8>, claim: Vec<u8>, now: u64) -> (reply:
        Result<Event, Error>)
        ensures
            (final(self)@, reply_view(reply)) == transfer_outcome(
                old(self)@,
                receiver@,
                claim@,
                now,
            ),
    {
        let slot = self.proofs.get(&claim);
        match transfer(&slot, receiver.clone(), now) {
            Ok(granted) => {
                let overwrite = move |held: Option<Claim>| -> (next: Option<Claim>)
                    ensures
                        slot_view(next) == (match held {
                            Some(_) => Some(granted@),
                            None => None,
                        }),
                {
                    match held {
                        Some(_) => Some(granted),
                        None => None,
                    }
                };
                self.proofs.mutate(claim.clone(), overwrite);
                Ok(Event::ClaimTransferred(receiver, claim))
            },
            Err(error) => Err(error),
        }
    }
}

} // verus!
