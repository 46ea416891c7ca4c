//! Laws of the registry, stated over the same spec functions that the
//! executable operations are specified with, and proved once for all
//! inputs.

use vstd::prelude::*;

use crate::contract::{verify_result, verify_state};
use crate::property::{Error, PropertyDetailsView};
use crate::registry::{
    add_state, mark_verified, owner_result, verify_records, verify_state_store,
};

verus! {

/// For every administrator and every other caller, the verification
/// workflow fails with `Unauthorized` whatever the owner and id arguments
/// are, and the registry is left untouched.
pub proof fn lemma_non_admin_is_unauthorized(
    admin: Seq<u8>,
    m: Map<Seq<u8>, Seq<PropertyDetailsView>>,
    caller: Seq<u8>,
    owner: Seq<u8>,
    property_id: u32,
)
    requires
        caller != admin,
    ensures
        verify_result(admin, m, caller, owner) == Err::<(), Error>(Error::Unauthorized),
        verify_state(admin, m, caller, owner, property_id) == m,
{
}

/// For every owner, adding to a freshly initialized registry fails with
/// `NoSuchOwner` and stores nothing: construction starts empty and the
/// append contract never creates an owner's entry.
pub proof fn lemma_add_to_fresh_registry_fails(owner: Seq<u8>, record: PropertyDetailsView)
    ensures
        owner_result(Map::empty(), owner) == Err::<(), Error>(Error::NoSuchOwner),
        add_state(Map::empty(), owner, record) == Map::<
            Seq<u8>,
            Seq<PropertyDetailsView>,
        >::empty(),
{
}

/// Round trip: a record appended for a present owner is retrievable again,
/// at the end of that owner's sequence, with every field equal to what was
/// supplied; the other owners' sequences are untouched.
pub proof fn lemma_append_round_trip(
    m: Map<Seq<u8>, Seq<PropertyDetailsView>>,
    owner: Seq<u8>,
    record: PropertyDetailsView,
)
    requires
        m.contains_key(owner),
    ensures
        owner_result(m, owner) == Ok::<(), Error>(()),
        add_state(m, owner, record).contains_key(owner),
        add_state(m, owner, record)[owner].len() == m[owner].len() + 1,
        add_state(m, owner, record)[owner].last() == record,
        forall|i: int|
            0 <= i < m[owner].len() ==> add_state(m, owner, record)[owner][i] == m[owner][i],
        forall|k: Seq<u8>|
            k != owner ==> add_state(m, owner, record).contains_key(k) == m.contains_key(k),
        forall|k: Seq<u8>|
            k != owner && m.contains_key(k) ==> add_state(m, owner, record)[k] == m[k],
{
}

/// A verification pass changes nothing but the verified flag: the length
/// and order of the sequence are kept, every field of every record other
/// than `is_verified` is kept, and a record ends up verified exactly when
/// it matched the id or already was verified.
pub proof fn lemma_verify_records_pointwise(s: Seq<PropertyDetailsView>, property_id: u32)
    ensures
        verify_records(s, property_id).len() == s.len(),
        forall|j: int|
            0 <= j < s.len() ==> #[trigger] verify_records(s, property_id)[j] == mark_verified(
                s[j],
                property_id,
            ),
        forall|j: int|
            0 <= j < s.len() ==> (#[trigger] verify_records(s, property_id)[j].is_verified
                <==> (s[j].is_verified || s[j].property_id == property_id)),
{
}

/// Verifying the same owner and id twice is idempotent: the first
/// authorized call on a present owner succeeds, the second succeeds as
/// well, and it changes nothing further.
pub proof fn lemma_verify_idempotent(
    admin: Seq<u8>,
    m: Map<Seq<u8>, Seq<PropertyDetailsView>>,
    owner: Seq<u8>,
    property_id: u32,
)
    requires
        m.contains_key(owner),
    ensures
        verify_result(admin, m, admin, owner) == Ok::<(), Error>(()),
        verify_result(admin, verify_state(admin, m, admin, owner, property_id), admin, owner)
            == Ok::<(), Error>(()),
        verify_state(
            admin,
            verify_state(admin, m, admin, owner, property_id),
            admin,
            owner,
            property_id,
        ) == verify_state(admin, m, admin, owner, property_id),
{
    let s = m[owner];
    let m1 = verify_state(admin, m, admin, owner, property_id);
    assert(verify_records(verify_records(s, property_id), property_id) =~= verify_records(
        s,
        property_id,
    ));
    assert(verify_state_store(m1, owner, property_id) =~= m1);
}

/// On a sequence where exactly one record carries the requested id and no
/// record is verified yet, a verification pass leaves exactly that one
/// record verified; together with the idempotence law, a second identical
/// pass changes nothing more.
pub proof fn lemma_verify_single_match(s: Seq<PropertyDetailsView>, property_id: u32, k: int)
    requires
        0 <= k < s.len(),
        s[k].property_id == property_id,
        forall|j: int| 0 <= j < s.len() && j != k ==> (#[trigger] s[j]).property_id != property_id,
        forall|j: int| 0 <= j < s.len() ==> !(#[trigger] s[j]).is_verified,
    ensures
        forall|j: int|
            0 <= j < s.len() ==> (#[trigger] verify_records(s, property_id)[j].is_verified <==> j
                == k),
{
    lemma_verify_records_pointwise(s, property_id);
}

} // verus!
