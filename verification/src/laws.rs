//! What holds of the registry's operations, whatever the store, the
//! identities, the fingerprints and the times.
//!
//! Every statement is over the outcome functions that the contracts of the
//! operations are written with, so each one holds of the operations
//! themselves.

use crate::claim::{Error, EventView};
use crate::pallet::{create_outcome, revoke_outcome, transfer_outcome, Outcome};
use crate::store::StoreView;
use vstd::prelude::*;

verus! {

/// One call of the registry, as it appears in a history of calls.
pub enum Call {
    /// Creation by `sender` of a claim on `fingerprint` at time `now`.
    Create { sender: Seq<u8>, fingerprint: Seq<u8>, now: u64 },
    /// Revocation by `sender` of the claim on `fingerprint`.
    Revoke { sender: Seq<u8>, fingerprint: Seq<u8> },
    /// Transfer to `receiver` of the claim on `fingerprint` at time `now`.
    Transfer { receiver: Seq<u8>, fingerprint: Seq<u8>, now: u64 },
}

impl Call {
    /// The fingerprint that the call is about.
    pub open spec fn fingerprint(self) -> Seq<u8> {
        match self {
            Call::Create { fingerprint, .. } => fingerprint,
            Call::Revoke { fingerprint, .. } => fingerprint,
            Call::Transfer { fingerprint, .. } => fingerprint,
        }
    }
}

/// The outcome of one call on a store.
pub open spec fn step(store: StoreView, call: Call) -> Outcome {
    match call {
        Call::Create { sender, fingerprint, now } => create_outcome(
            store,
            sender,
            fingerprint,
            now,
        ),
        Call::Revoke { sender, fingerprint } => revoke_outcome(store, sender, fingerprint),
        Call::Transfer { receiver, fingerprint, now } => transfer_outcome(
            store,
            receiver,
            fingerprint,
            now,
        ),
    }
}

/// The store that a history of calls, made in order on an empty registry,
/// leaves behind.
pub open spec fn run(history: Seq<Call>) -> StoreView
    decreases history.len(),
{
    if history.len() == 0 {
        Map::empty()
    } else {
        step(run(history.drop_last()), history.last()).0
    }
}

/// True where every claim in the store was recorded at `time` or before.
pub open spec fn recorded_by(store: StoreView, time: u64) -> bool {
    forall|fingerprint: Seq<u8>| #[trigger]
        store.contains_key(fingerprint) ==> store[fingerprint].1 <= time
}

/// A creation that follows at once on a creation of the same fingerprint by
/// the same identity fails with `ProofAlreadyExists`, whether or not the
/// first one succeeded, and leaves the store as the first one left it.
pub proof fn law_second_create_fails(
    store: StoreView,
    sender: Seq<u8>,
    fingerprint: Seq<u8>,
    first_time: u64,
    second_time: u64,
)
    ensures
        ({
            let first = create_outcome(store, sender, fingerprint, first_time);
            create_outcome(first.0, sender, fingerprint, second_time) == (
                first.0,
                Err::<EventView, Error>(Error::ProofAlreadyExists),
            )
        }),
{
}

/// Revoking a fingerprint that the store does not hold fails with
/// `ClaimNotExist`, whoever asks, and leaves the store as it was.
pub proof fn law_revoke_unclaimed_fails(store: StoreView, sender: Seq<u8>, fingerprint: Seq<u8>)
    requires
        !store.contains_key(fingerprint),
    ensures
        revoke_outcome(store, sender, fingerprint) == (
            store,
            Err::<EventView, Error>(Error::ClaimNotExist),
        ),
{
}

/// A registry that started empty holds no fingerprint that no call of its
/// history tried to create.
pub proof fn law_never_created_is_unclaimed(history: Seq<Call>, fingerprint: Seq<u8>)
    requires
        forall|i: int|
            0 <= i < history.len() ==> !(history[i] is Create && history[i].fingerprint()
                == fingerprint),
    ensures
        !run(history).contains_key(fingerprint),
    decreases history.len(),
{
    if history.len() > 0 {
        let earlier = history.drop_last();
        assert forall|i: int| 0 <= i < earlier.len() implies !(earlier[i] is Create
            && earlier[i].fingerprint() == fingerprint) by {
            assert(earlier[i] == history[i]);
        }
        law_never_created_is_unclaimed(earlier, fingerprint);
        assert(!(history.last() is Create && history.last().fingerprint() == fingerprint));
    }
}

/// On a registry that started empty, revoking a fingerprint that no call of
/// its history tried to create fails with `ClaimNotExist`.
pub proof fn law_revoke_never_created_fails(
    history: Seq<Call>,
    sender: Seq<u8>,
    fingerprint: Seq<u8>,
)
    requires
        forall|i: int|
            0 <= i < history.len() ==> !(history[i] is Create && history[i].fingerprint()
                == fingerprint),
    ensures
        revoke_outcome(run(history), sender, fingerprint) == (
            run(history),
            Err::<EventView, Error>(Error::ClaimNotExist),
        ),
{
    law_never_created_is_unclaimed(history, fingerprint);
}

/// After a successful creation, a revocation by any other identity fails
/// with `NotClaimOwner`, and the claim stays with its creator.
pub proof fn law_revoke_by_other_fails(
    store: StoreView,
    owner: Seq<u8>,
    other: Seq<u8>,
    fingerprint: Seq<u8>,
    now: u64,
)
    requires
        create_outcome(store, owner, fingerprint, now).1 is Ok,
        other != owner,
    ensures
        ({
            let created = create_outcome(store, owner, fingerprint, now).0;
            let revoked = revoke_outcome(created, other, fingerprint);
            &&& revoked == (created, Err::<EventView, Error>(Error::NotClaimOwner))
            &&& revoked.0.get(fingerprint) == Some((owner, now))
        }),
{
}

/// After a successful creation, a revocation by the creator succeeds, the
/// fingerprint is unclaimed again, and the store is what it was before the
/// creation.
pub proof fn law_revoke_by_owner_succeeds(
    store: StoreView,
    owner: Seq<u8>,
    fingerprint: Seq<u8>,
    now: u64,
)
    requires
        create_outcome(store, owner, fingerprint, now).1 is Ok,
    ensures
        ({
            let created = create_outcome(store, owner, fingerprint, now).0;
            let revoked = revoke_outcome(created, owner, fingerprint);
            &&& revoked.1 == Ok::<EventView, Error>(EventView::ClaimRevoked(owner, fingerprint))
            &&& revoked.0.get(fingerprint) == None::<(Seq<u8>, u64)>
            &&& revoked.0 == store
        }),
{
    let created = create_outcome(store, owner, fingerprint, now).0;
    assert(created.remove(fingerprint) =~= store);
}

/// After a successful creation, a transfer to any identity succeeds, be it
/// the creator or another, and the claim then names the receiver and the
/// time of the transfer. Where the clock has not run backwards between the
/// two calls, the claim's time is no earlier than before.
pub proof fn law_transfer_after_create(
    store: StoreView,
    owner: Seq<u8>,
    receiver: Seq<u8>,
    fingerprint: Seq<u8>,
    created_at: u64,
    transferred_at: u64,
)
    requires
        create_outcome(store, owner, fingerprint, created_at).1 is Ok,
    ensures
        ({
            let created = create_outcome(store, owner, fingerprint, created_at).0;
            let transferred = transfer_outcome(created, receiver, fingerprint, transferred_at);
            &&& transferred.1 == Ok::<EventView, Error>(
                EventView::ClaimTransferred(receiver, fingerprint),
            )
            &&& transferred.0.get(fingerprint) == Some((receiver, transferred_at))
            &&& created_at <= transferred_at ==> transferred.0[fingerprint].1
                >= created[fingerprint].1
        }),
{
}

/// A call that fails leaves the store as it was.
pub proof fn law_failure_changes_nothing(store: StoreView, call: Call)
    requires
        step(store, call).1 is Err,
    ensures
        step(store, call).0 == store,
{
}

/// A call changes no slot but that of its own fingerprint.
pub proof fn law_other_slots_untouched(store: StoreView, call: Call, fingerprint: Seq<u8>)
    requires
        fingerprint != call.fingerprint(),
    ensures
        step(store, call).0.get(fingerprint) == store.get(fingerprint),
{
}

/// The owner of a claim changes only through a successful revocation or a
/// successful transfer of its fingerprint.
pub proof fn law_owner_changes_by_revoke_or_transfer(
    store: StoreView,
    call: Call,
    fingerprint: Seq<u8>,
)
    requires
        store.contains_key(fingerprint),
        !(step(store, call).0.contains_key(fingerprint) && step(store, call).0[fingerprint].0
            == store[fingerprint].0),
    ensures
        call is Revoke || call is Transfer,
        call.fingerprint() == fingerprint,
        step(store, call).1 is Ok,
{
}

/// While the clock does not run backwards, recorded times never decrease: if
/// every claim was recorded by `before` and a creation or a transfer is made
/// at a time `now` no earlier than `before`, then every claim is recorded by
/// `now` afterwards, and no claim that is still there has an earlier time
/// than it had.
pub proof fn law_recorded_times_never_decrease(store: StoreView, call: Call, before: u64, now: u64)
    requires
        recorded_by(store, before),
        before <= now,
        match call {
            Call::Create { now: at, .. } => at == now,
            Call::Revoke { .. } => true,
            Call::Transfer { now: at, .. } => at == now,
        },
    ensures
        recorded_by(step(store, call).0, now),
        forall|fingerprint: Seq<u8>|
            store.contains_key(fingerprint) && #[trigger] step(store, call).0.contains_key(
                fingerprint,
            ) ==> step(store, call).0[fingerprint].1 >= store[fingerprint].1,
{
    let after = step(store, call).0;
    assert forall|fingerprint: Seq<u8>| #[trigger]
        after.contains_key(fingerprint) implies after[fingerprint].1 <= now by {
        if store.contains_key(fingerprint) {
            assert(store[fingerprint].1 <= before);
        }
    }
    assert forall|fingerprint: Seq<u8>|
        store.contains_key(fingerprint) && #[trigger] after.contains_key(
            fingerprint,
        ) implies after[fingerprint].1 >= store[fingerprint].1 by {
        assert(store[fingerprint].1 <= before);
    }
}

} // verus!
