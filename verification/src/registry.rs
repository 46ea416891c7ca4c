//! The registry store: a mapping from owner identity to the ordered
//! sequence of that owner's property records.
//!
//! The store is held as a vector of per-owner entries with pairwise
//! distinct owner identities, and is modelled in specifications as a
//! `Map` from the owner's bytes to the sequence of record values. Every
//! mutation fetches one owner's whole sequence, rewrites it, and leaves
//! every other owner untouched.

use vstd::prelude::*;

use crate::account::AccountId;
use crate::property::{Error, PropertyDetails, PropertyDetailsView, PropertyId};

verus! {

/// One owner's slot in the store: the identity and the ordered, append-only
/// sequence of that owner's records.
pub struct OwnerEntry {
    pub owner: AccountId,
    pub records: Vec<PropertyDetails>,
}

/// The registry store. The entries are keyed by owner identity; `wf` says
/// the keys are pairwise distinct, which every operation preserves.
pub struct Registry {
    pub entries: Vec<OwnerEntry>,
}

/// The record values of one owner's sequence.
pub open spec fn records_view(records: Seq<PropertyDetails>) -> Seq<PropertyDetailsView> {
    records.map_values(|r: PropertyDetails| r@)
}

/// The map that a sequence of owner entries denotes: later entries win,
/// though under `unique_owners` no two entries share a key.
pub open spec fn entries_map(entries: Seq<OwnerEntry>) -> Map<Seq<u8>, Seq<PropertyDetailsView>>
    decreases entries.len(),
{
    if entries.len() == 0 {
        Map::empty()
    } else {
        entries_map(entries.drop_last()).insert(
            entries.last().owner@,
            records_view(entries.last().records@),
        )
    }
}

/// No two entries claim the same owner identity.
pub open spec fn unique_owners(entries: Seq<OwnerEntry>) -> bool {
    forall|i: int, j: int|
        0 <= i < j < entries.len() ==> #[trigger] entries[i].owner@ != #[trigger] entries[j].owner@
}

/// A key is in the denoted map exactly when some entry carries it.
pub proof fn lemma_entries_map_contains(entries: Seq<OwnerEntry>, k: Seq<u8>)
    ensures
        entries_map(entries).contains_key(k) <==> (exists|i: int|
            0 <= i < entries.len() && #[trigger] entries[i].owner@ == k),
    decreases entries.len(),
{
    if entries.len() == 0 {
    } else {
        lemma_entries_map_contains(entries.drop_last(), k);
        if entries.last().owner@ == k {
            assert(entries[entries.len() - 1].owner@ == k);
        } else {
            if entries_map(entries).contains_key(k) {
                let i = choose|i: int|
                    0 <= i < entries.drop_last().len() && #[trigger] entries.drop_last()[i].owner@
                        == k;
                assert(entries[i].owner@ == k);
            }
            if exists|i: int| 0 <= i < entries.len() && #[trigger] entries[i].owner@ == k {
                let i = choose|i: int| 0 <= i < entries.len() && #[trigger] entries[i].owner@ == k;
                assert(entries.drop_last()[i].owner@ == k);
            }
        }
    }
}

/// Under distinct keys, the denoted map sends each entry's owner to that
/// entry's record values.
pub proof fn lemma_entries_map_index(entries: Seq<OwnerEntry>, i: int)
    requires
        unique_owners(entries),
        0 <= i < entries.len(),
    ensures
        entries_map(entries).contains_key(entries[i].owner@),
        entries_map(entries)[entries[i].owner@] == records_view(entries[i].records@),
    decreases entries.len(),
{
    if i < entries.len() - 1 {
        assert(unique_owners(entries.drop_last())) by {
            assert(forall|x: int, y: int|
                0 <= x < y < entries.drop_last().len() ==> #[trigger] entries.drop_last()[x].owner@
                    != #[trigger] entries.drop_last()[y].owner@) by {
                assert(forall|x: int|
                    0 <= x < entries.drop_last().len() ==> entries.drop_last()[x]
                        == entries[x]);
            }
        }
        lemma_entries_map_index(entries.drop_last(), i);
        assert(entries.last().owner@ != entries[i].owner@);
    }
}

/// Replacing one entry's records, key kept, turns the denoted map into an
/// insertion at that key.
pub proof fn lemma_entries_map_update(entries: Seq<OwnerEntry>, i: int, e: OwnerEntry)
    requires
        unique_owners(entries),
        0 <= i < entries.len(),
        e.owner@ == entries[i].owner@,
    ensures
        entries_map(entries.update(i, e)) == entries_map(entries).insert(
            e.owner@,
            records_view(e.records@),
        ),
    decreases entries.len(),
{
    let entries2 = entries.update(i, e);
    if i == entries.len() - 1 {
        assert(entries2.drop_last() =~= entries.drop_last());
        assert(entries2.last() == e);
        assert(entries_map(entries2) =~= entries_map(entries).insert(
            e.owner@,
            records_view(e.records@),
        ));
    } else {
        assert(unique_owners(entries.drop_last())) by {
            assert(forall|x: int|
                0 <= x < entries.drop_last().len() ==> entries.drop_last()[x] == entries[x]);
        }
        assert(entries2.drop_last() =~= entries.drop_last().update(i, e));
        lemma_entries_map_update(entries.drop_last(), i, e);
        assert(entries2.last() == entries.last());
        assert(entries.last().owner@ != e.owner@);
        assert(entries_map(entries2) =~= entries_map(entries).insert(
            e.owner@,
            records_view(e.records@),
        ));
    }
}

/// One record value after a verification pass for `property_id`: a matching
/// record becomes verified, any other record is left as it is.
pub open spec fn mark_verified(r: PropertyDetailsView, property_id: PropertyId) -> PropertyDetailsView {
    if r.property_id == property_id {
        PropertyDetailsView { is_verified: true, ..r }
    } else {
        r
    }
}

/// One owner's sequence after a verification pass: every matching record is
/// verified, everything else is untouched and order is kept.
pub open spec fn verify_records(s: Seq<PropertyDetailsView>, property_id: PropertyId) -> Seq<
    PropertyDetailsView,
> {
    s.map_values(|r: PropertyDetailsView| mark_verified(r, property_id))
}

/// Result of any store operation that needs the owner to already have an
/// entry: absence is the only failure.
pub open spec fn owner_result(
    m: Map<Seq<u8>, Seq<PropertyDetailsView>>,
    owner: Seq<u8>,
) -> Result<(), Error> {
    if m.contains_key(owner) {
        Ok(())
    } else {
        Err(Error::NoSuchOwner)
    }
}

/// The store after appending a record for `owner`: the record lands at the
/// end of the owner's sequence if the owner is present, and nothing changes
/// otherwise.
pub open spec fn add_state(
    m: Map<Seq<u8>, Seq<PropertyDetailsView>>,
    owner: Seq<u8>,
    record: PropertyDetailsView,
) -> Map<Seq<u8>, Seq<PropertyDetailsView>> {
    if m.contains_key(owner) {
        m.insert(owner, m[owner].push(record))
    } else {
        m
    }
}

/// The store after a verification pass over `owner`'s sequence: matching
/// records become verified if the owner is present, and nothing changes
/// otherwise. An owner that is present but has no matching record is a
/// silent no-op, not an error.
pub open spec fn verify_state_store(
    m: Map<Seq<u8>, Seq<PropertyDetailsView>>,
    owner: Seq<u8>,
    property_id: PropertyId,
) -> Map<Seq<u8>, Seq<PropertyDetailsView>> {
    if m.contains_key(owner) {
        m.insert(owner, verify_records(m[owner], property_id))
    } else {
        m
    }
}

impl View for Registry {
    type V = Map<Seq<u8>, Seq<PropertyDetailsView>>;

    open spec fn view(&self) -> Map<Seq<u8>, Seq<PropertyDetailsView>> {
        entries_map(self.entries@)
    }
}

impl Registry {
    /// Distinct owner keys; established at construction and preserved by
    /// every operation.
    pub open spec fn wf(&self) -> bool {
        unique_owners(self.entries@)
    }

    /// An empty store: no owner has an entry.
    pub fn new() -> (r: Registry)
        ensures
            r.wf(),
            r@ == Map::<Seq<u8>, Seq<PropertyDetailsView>>::empty(),
    {
        Registry { entries: Vec::new() }
    }

    /// The position of `owner`'s entry, if there is one.
    fn find_owner(&self, owner: &AccountId) -> (r: Option<usize>)
        ensures
            match r {
                Some(i) => i < self.entries@.len() && self.entries@[i as int].owner@ == owner@,
                None => forall|i: int|
                    0 <= i < self.entries@.len() ==> #[trigger] self.entries@[i].owner@ != owner@,
            },
    {
        let n = self.entries.len();
        let mut i: usize = 0;
        while i < n
            invariant
                n == self.entries@.len(),
                i <= n,
                forall|j: int| 0 <= j < i ==> #[trigger] self.entries@[j].owner@ != owner@,
            decreases n - i,
        {
            if self.entries[i].owner == *owner {
                return Some(i);
            }
            i = i + 1;
        }
        None
    }

    /// Read-only lookup of one owner's sequence; absence is a valid,
    /// expected outcome, not an error.
    pub fn lookup(&self, owner: &AccountId) -> (r: Option<&Vec<PropertyDetails>>)
        requires
            self.wf(),
        ensures
            r.is_some() <==> self@.contains_key(owner@),
            match r {
                Some(records) => self@[owner@] == records_view(records@),
                None => true,
            },
    {
        match self.find_owner(owner) {
            Some(i) => {
                proof {
                    lemma_entries_map_index(self.entries@, i as int);
                }
                Some(&self.entries[i].records)
            },
            None => {
                proof {
                    lemma_entries_map_contains(self.entries@, owner@);
                }
                None
            },
        }
    }

    /// Appends a record to `owner`'s sequence. Fails when the owner has no
    /// entry at all: the store never creates one on its own.
    pub fn append(&mut self, owner: &AccountId, record: PropertyDetails) -> (r: Result<(), Error>)
        requires
            old(self).wf(),
        ensures
            final(self).wf(),
            r == owner_result(old(self)@, owner@),
            final(self)@ == add_state(old(self)@, owner@, record@),
    {
        let ghost old_entries = self.entries@;
        let ghost record_v = record@;
        match self.find_owner(owner) {
            Some(i) => {
                proof {
                    lemma_entries_map_index(old_entries, i as int);
                }
                let entry = &mut self.entries[i];
                entry.records.push(record);
                proof {
                    let e = self.entries@[i as int];
                    assert(self.entries@ =~= old_entries.update(i as int, e));
                    lemma_entries_map_update(old_entries, i as int, e);
                    assert(records_view(e.records@) =~= records_view(
                        old_entries[i as int].records@,
                    ).push(record_v));
                    assert(unique_owners(self.entries@));
                }
                Ok(())
            },
            None => {
                proof {
                    lemma_entries_map_contains(self.entries@, owner@);
                }
                Err(Error::NoSuchOwner)
            },
        }
    }

    /// Rewrites `owner`'s sequence in one read-modify-write: every record
    /// whose id matches becomes verified. An owner that is present but has
    /// no matching record succeeds without any mutation; only a missing
    /// owner is an error.
    pub fn set_verified(&mut self, owner: &AccountId, property_id: PropertyId) -> (r: Result<
        (),
        Error,
    >)
        requires
            old(self).wf(),
        ensures
            final(self).wf(),
            r == owner_result(old(self)@, owner@),
            final(self)@ == verify_state_store(old(self)@, owner@, property_id),
    {
        let ghost old_entries = self.entries@;
        match self.find_owner(owner) {
            Some(i) => {
                proof {
                    lemma_entries_map_index(old_entries, i as int);
                }
                let ghost old_records = self.entries@[i as int].records@;
                let entry = &mut self.entries[i];
                let n = entry.records.len();
                let mut j: usize = 0;
                while j < n
                    invariant
                        n == old_records.len(),
                        j <= n,
                        entry.owner@ == old_entries[i as int].owner@,
                        entry.records@.len() == old_records.len(),
                        forall|k: int|
                            0 <= k < j ==> #[trigger] entry.records@[k]@ == mark_verified(
                                old_records[k]@,
                                property_id,
                            ),
                        forall|k: int|
                            j <= k < n ==> #[trigger] entry.records@[k] == old_records[k],
                    decreases n - j,
                {
                    if entry.records[j].property_id == property_id {
                        let record = &mut entry.records[j];
                        record.is_verified = true;
                    }
                    j = j + 1;
                }
                proof {
                    assert(records_view(entry.records@) =~= verify_records(
                        records_view(old_records),
                        property_id,
                    ));
                }
                proof {
                    let e = self.entries@[i as int];
                    assert(self.entries@ =~= old_entries.update(i as int, e));
                    lemma_entries_map_update(old_entries, i as int, e);
                    assert(unique_owners(self.entries@));
                }
                Ok(())
            },
            None => {
                proof {
                    lemma_entries_map_contains(self.entries@, owner@);
                }
                Err(Error::NoSuchOwner)
            },
        }
    }
}

} // verus!
