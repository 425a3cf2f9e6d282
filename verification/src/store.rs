//! The claim store: a finite map from fingerprints to claims.

use crate::claim::{slot_view, Claim, ClaimView, SlotView};
use vstd::prelude::*;

verus! {

/// Mathematical content of a [`ClaimStore`]: each claimed fingerprint with
/// its owner and the time ownership was recorded.
pub type StoreView = Map<Seq<u8>, ClaimView>;

/// The store with the slot of `fingerprint` set to `slot`: the claim stored
/// there, or the fingerprint removed.
pub open spec fn put(store: StoreView, fingerprint: Seq<u8>, slot: SlotView) -> StoreView {
    match slot {
        Some(claim) => store.insert(fingerprint, claim),
        None => store.remove(fingerprint),
    }
}

/// One stored record: a fingerprint and the claim on it.
struct Entry {
    fingerprint: Vec<u8>,
    claim: Claim,
}

/// True where no fingerprint occurs twice among `entries`.
spec fn distinct(entries: Seq<Entry>) -> bool {
    forall|i: int, j: int|
        0 <= i < j < entries.len() ==> entries[i].fingerprint@ != entries[j].fingerprint@
}

/// True where `entries` holds a record for `fingerprint` at index `i`.
spec fn holds_at(entries: Seq<Entry>, fingerprint: Seq<u8>, i: int) -> bool {
    0 <= i < entries.len() && entries[i].fingerprint@ == fingerprint
}

/// The map that a sequence of records stands for.
spec fn contents(entries: Seq<Entry>) -> StoreView {
    Map::new(
        |fingerprint: Seq<u8>| exists|i: int| holds_at(entries, fingerprint, i),
        |fingerprint: Seq<u8>| entries[choose|i: int| holds_at(entries, fingerprint, i)].claim@,
    )
}

/// A record at index `i` is what the map holds for its fingerprint.
proof fn lemma_contents_at(entries: Seq<Entry>, i: int)
    requires
        distinct(entries),
        0 <= i < entries.len(),
    ensures
        contents(entries).contains_key(entries[i].fingerprint@),
        contents(entries)[entries[i].fingerprint@] == entries[i].claim@,
{
    let fingerprint = entries[i].fingerprint@;
    assert(holds_at(entries, fingerprint, i));
    let j = choose|j: int| holds_at(entries, fingerprint, j);
    assert(j == i);
}

/// A fingerprint found at no index is not in the map.
proof fn lemma_contents_absent(entries: Seq<Entry>, fingerprint: Seq<u8>)
    requires
        forall|i: int| 0 <= i < entries.len() ==> entries[i].fingerprint@ != fingerprint,
    ensures
        !contents(entries).contains_key(fingerprint),
{
    assert forall|i: int| !holds_at(entries, fingerprint, i) by {}
}

/// Appending a record for an unclaimed fingerprint inserts it into the map.
proof fn lemma_contents_push(entries: Seq<Entry>, entry: Entry)
    requires
        distinct(entries),
        !contents(entries).contains_key(entry.fingerprint@),
    ensures
        distinct(entries.push(entry)),
        contents(entries.push(entry)) == contents(entries).insert(
            entry.fingerprint@,
            entry.claim@,
        ),
{
    let grown = entries.push(entry);
    assert forall|i: int, j: int| 0 <= i < j < grown.len() implies grown[i].fingerprint@
        != grown[j].fingerprint@ by {
        if j == entries.len() {
            assert(holds_at(entries, grown[i].fingerprint@, i));
        }
    }
    let target = contents(entries).insert(entry.fingerprint@, entry.claim@);
    assert forall|fingerprint: Seq<u8>|
        contents(grown).contains_key(fingerprint) implies #[trigger] target.contains_key(
        fingerprint,
    ) by {
        let i = choose|i: int| holds_at(grown, fingerprint, i);
        if i < entries.len() {
            assert(holds_at(entries, fingerprint, i));
        }
    }
    assert forall|fingerprint: Seq<u8>| #[trigger]
        target.contains_key(fingerprint) implies contents(grown).contains_key(fingerprint)
        && contents(grown)[fingerprint] == target[fingerprint] by {
        if fingerprint == entry.fingerprint@ {
            lemma_contents_at(grown, entries.len() as int);
        } else {
            let i = choose|i: int| holds_at(entries, fingerprint, i);
            lemma_contents_at(entries, i);
            lemma_contents_at(grown, i);
        }
    }
    assert(contents(grown) =~= target);
}

/// Replacing the claim of the record at index `i` overwrites its fingerprint
/// in the map.
proof fn lemma_contents_update(entries: Seq<Entry>, i: int, entry: Entry)
    requires
        distinct(entries),
        0 <= i < entries.len(),
        entry.fingerprint@ == entries[i].fingerprint@,
    ensures
        distinct(entries.update(i, entry)),
        contents(entries.update(i, entry)) == contents(entries).insert(
            entry.fingerprint@,
            entry.claim@,
        ),
{
    let changed = entries.update(i, entry);
    let target = contents(entries).insert(entry.fingerprint@, entry.claim@);
    assert forall|fingerprint: Seq<u8>|
        contents(changed).contains_key(fingerprint) implies #[trigger] target.contains_key(
        fingerprint,
    ) by {
        let j = choose|j: int| holds_at(changed, fingerprint, j);
        assert(holds_at(entries, fingerprint, j));
    }
    assert forall|fingerprint: Seq<u8>| #[trigger]
        target.contains_key(fingerprint) implies contents(changed).contains_key(fingerprint)
        && contents(changed)[fingerprint] == target[fingerprint] by {
        if fingerprint == entry.fingerprint@ {
            lemma_contents_at(changed, i);
        } else {
            let j = choose|j: int| holds_at(entries, fingerprint, j);
            lemma_contents_at(entries, j);
            lemma_contents_at(changed, j);
        }
    }
    assert(contents(changed) =~= target);
}

/// Dropping the record at index `i` removes its fingerprint from the map.
proof fn lemma_contents_remove(entries: Seq<Entry>, i: int)
    requires
        distinct(entries),
        0 <= i < entries.len(),
    ensures
        distinct(entries.remove(i)),
        contents(entries.remove(i)) == contents(entries).remove(entries[i].fingerprint@),
{
    let shrunk = entries.remove(i);
    let target = contents(entries).remove(entries[i].fingerprint@);
    assert forall|fingerprint: Seq<u8>|
        contents(shrunk).contains_key(fingerprint) implies #[trigger] target.contains_key(
        fingerprint,
    ) by {
        let j = choose|j: int| holds_at(shrunk, fingerprint, j);
        let k = if j < i { j } else { j + 1 };
        assert(holds_at(entries, fingerprint, k));
    }
    assert forall|fingerprint: Seq<u8>| #[trigger]
        target.contains_key(fingerprint) implies contents(shrunk).contains_key(fingerprint)
        && contents(shrunk)[fingerprint] == target[fingerprint] by {
        let k = choose|k: int| holds_at(entries, fingerprint, k);
        lemma_contents_at(entries, k);
        let j = if k < i { k } else { k - 1 };
        lemma_contents_at(shrunk, j);
    }
    assert(contents(shrunk) =~= target);
}

/// The map holds as many fingerprints as there are records.
proof fn lemma_contents_len(entries: Seq<Entry>)
    requires
        distinct(entries),
    ensures
        contents(entries).dom().finite(),
        contents(entries).dom().len() == entries.len(),
    decreases entries.len(),
{
    if entries.len() == 0 {
        assert(contents(entries).dom() =~= Set::<Seq<u8>>::empty());
    } else {
        let earlier = entries.drop_last();
        let entry = entries.last();
        assert forall|i: int| !holds_at(earlier, entry.fingerprint@, i) by {
            if holds_at(earlier, entry.fingerprint@, i) {
                assert(entries[i].fingerprint@ != entries[entries.len() - 1].fingerprint@);
            }
        }
        lemma_contents_len(earlier);
        lemma_contents_push(earlier, entry);
        assert(earlier.push(entry) =~= entries);
        assert(contents(entries).dom() =~= contents(earlier).dom().insert(entry.fingerprint@));
    }
}

/// A key-value store from fingerprint to claim, holding at most one claim
/// per fingerprint.
pub struct ClaimStore {
    entries: Vec<Entry>,
}

impl View for ClaimStore {
    type V = StoreView;

    closed spec fn view(&self) -> StoreView {
        contents(self.entries@)
    }
}

impl ClaimStore {
    /// Every store holds each fingerprint at most once.
    #[verifier::type_invariant]
    spec fn well_formed(&self) -> bool {
        distinct(self.entries@)
    }

    /// A store without claims.
    pub fn new() -> (store: ClaimStore)
        ensures
            store@ == Map::<Seq<u8>, ClaimView>::empty(),
    {
        let store = ClaimStore { entries: Vec::new() };
        proof {
            assert(store@ =~= Map::<Seq<u8>, ClaimView>::empty());
        }
        store
    }

    /// The number of claimed fingerprints.
    pub fn len(&self) -> (count: usize)
        ensures
            self@.dom().finite(),
            count == self@.dom().len(),
    {
        proof {
            use_type_invariant(self);
            lemma_contents_len(self.entries@);
        }
        self.entries.len()
    }

    /// Whether no fingerprint is claimed.
    pub fn is_empty(&self) -> (empty: bool)
        ensures
            empty == (self@ == Map::<Seq<u8>, ClaimView>::empty()),
    {
        proof {
            use_type_invariant(self);
            if self.entries@.len() > 0 {
                lemma_contents_at(self.entries@, 0);
            } else {
                assert(self@ =~= Map::<Seq<u8>, ClaimView>::empty());
            }
        }
        self.entries.len() == 0
    }

    /// Index of the record for `fingerprint`, if there is one.
    fn position(&self, fingerprint: &Vec<u8>) -> (found: Option<usize>)
        ensures
            match found {
                Some(i) => holds_at(self.entries@, fingerprint@, i as int),
                None => !self@.contains_key(fingerprint@),
            },
    {
        let mut i: usize = 0;
        while i < self.entries.len()
            invariant
                i <= self.entries.len(),
                forall|j: int| 0 <= j < i ==> self.entries[j].fingerprint@ != fingerprint@,
            decreases self.entries.len() - i,
        {
            if self.entries[i].fingerprint == *fingerprint {
                assert(self.entries[i as int].fingerprint@ =~= fingerprint@);
                return Some(i);
            }
            i += 1;
        }
        proof {
            lemma_contents_absent(self.entries@, fingerprint@);
        }
        None
    }

    /// The claim on `fingerprint`, if there is one.
    pub fn get(&self, fingerprint: &Vec<u8>) -> (slot: Option<Claim>)
        ensures
            slot_view(slot) == self@.get(fingerprint@),
    {
        match self.position(fingerprint) {
            Some(i) => {
                proof {
                    use_type_invariant(self);
                    lemma_contents_at(self.entries@, i as int);
                }
                Some(self.entries[i].claim.clone())
            },
            None => None,
        }
    }

    /// Whether `fingerprint` is claimed.
    pub fn contains(&self, fingerprint: &Vec<u8>) -> (present: bool)
        ensures
            present == self@.contains_key(fingerprint@),
    {
        match self.position(fingerprint) {
            Some(i) => {
                proof {
                    use_type_invariant(self);
                    lemma_contents_at(self.entries@, i as int);
                }
                true
            },
            None => false,
        }
    }

    /// Stores `claim` for `fingerprint`, in place of any claim already there.
    pub fn insert(&mut self, fingerprint: Vec<u8>, claim: Claim)
        ensures
            final(self)@ == old(self)@.insert(fingerprint@, claim@),
    {
        proof {
            use_type_invariant(&*self);
        }
        let found = self.position(&fingerprint);
        let entry = Entry { fingerprint, claim };
        let mut entries: Vec<Entry> = Vec::new();
        core::mem::swap(&mut self.entries, &mut entries);
        match found {
            Some(i) => {
                proof {
                    lemma_contents_update(entries@, i as int, entry);
                }
                entries.set(i, entry);
            },
            None => {
                proof {
                    lemma_contents_push(entries@, entry);
                }
                entries.push(entry);
            },
        }
        core::mem::swap(&mut self.entries, &mut entries);
    }

    /// Deletes the claim on `fingerprint`, if there is one.
    pub fn remove(&mut self, fingerprint: &Vec<u8>)
        ensures
            final(self)@ == old(self)@.remove(fingerprint@),
    {
        proof {
            use_type_invariant(&*self);
        }
        match self.position(fingerprint) {
            Some(i) => {
                let mut entries: Vec<Entry> = Vec::new();
                core::mem::swap(&mut self.entries, &mut entries);
                proof {
                    lemma_contents_remove(entries@, i as int);
                }
                entries.remove(i);
                core::mem::swap(&mut self.entries, &mut entries);
            },
            None => {
                assert(self@ =~= self@.remove(fingerprint@));
            },
        }
    }

    /// Hands the slot of `fingerprint` to `f` and stores what `f` returns in
    /// its place: a claim to keep, or nothing to leave the fingerprint
    /// unclaimed.
    pub fn mutate<F: FnOnce(Option<Claim>) -> Option<Claim>>(
        &mut self,
        fingerprint: Vec<u8>,
        f: F,
    )
        requires
            forall|slot: Option<Claim>|
                slot_view(slot) == old(self)@.get(fingerprint@) ==> f.requires((slot,)),
        ensures
            exists|slot: Option<Claim>, next: Option<Claim>|
                slot_view(slot) == old(self)@.get(fingerprint@) && #[trigger] f.ensures(
                    (slot,),
                    next,
                ) && final(self)@ == put(old(self)@, fingerprint@, slot_view(next)),
    {
        let slot = self.get(&fingerprint);
        let next = f(slot);
        match next {
            Some(claim) => self.insert(fingerprint, claim),
            None => self.remove(&fingerprint),
        }
        assert(f.ensures((slot,), next));
    }
}

} // verus!
