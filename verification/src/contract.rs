//! The host-invocable surface: construction, adding a property for the
//! calling owner, and the admin-gated verification workflow.
//!
//! The execution environment that supplies the caller identity lives
//! outside this crate, so every operation takes the caller as an explicit
//! value and is specified for every possible caller.

use vstd::prelude::*;

use crate::access::authorize;
use crate::account::AccountId;
use crate::property::{
    Error, Metadata, MetadataView, PropertyDetails, PropertyDetailsView, PropertyId,
    NEW_PROPERTY_ID,
};
use crate::registry::{
    add_state, owner_result, verify_state_store, Registry,
};

verus! {

/// The value of the record that an addition stores: the fixed fresh id,
/// the caller's inputs, and the unverified starting state.
pub open spec fn new_property_view(
    total_tokens: u64,
    metadata: MetadataView,
    total_offered_ownership_percentage: u8,
) -> PropertyDetailsView {
    PropertyDetailsView {
        property_id: NEW_PROPERTY_ID,
        total_tokens,
        metadata,
        total_offered_ownership_percentage,
        is_verified: false,
    }
}

/// What the verification workflow returns: the access check comes first,
/// then the owner lookup; a present owner without a matching record is
/// still a success.
pub open spec fn verify_result(
    admin: Seq<u8>,
    m: Map<Seq<u8>, Seq<PropertyDetailsView>>,
    caller: Seq<u8>,
    owner: Seq<u8>,
) -> Result<(), Error> {
    if caller != admin {
        Err(Error::Unauthorized)
    } else {
        owner_result(m, owner)
    }
}

/// The registry after the verification workflow: only an authorized call on
/// a present owner rewrites that owner's sequence; every failure leaves the
/// registry untouched.
pub open spec fn verify_state(
    admin: Seq<u8>,
    m: Map<Seq<u8>, Seq<PropertyDetailsView>>,
    caller: Seq<u8>,
    owner: Seq<u8>,
    property_id: PropertyId,
) -> Map<Seq<u8>, Seq<PropertyDetailsView>> {
    if caller == admin {
        verify_state_store(m, owner, property_id)
    } else {
        m
    }
}

/// The registry contract: the administrator fixed at construction and the
/// per-owner record store. The store exclusively owns all records; the
/// admin never changes after construction.
pub struct PropertyTokenization {
    /// Administrator of the registry: the single identity that can verify
    /// properties.
    pub admin: AccountId,
    /// Each owner's ordered sequence of property records.
    pub property: Registry,
}

impl PropertyTokenization {
    /// The store's keys stay pairwise distinct.
    pub open spec fn wf(&self) -> bool {
        self.property.wf()
    }

    /// Constructor: records the administrator and starts with an empty
    /// store, so no owner has an entry yet.
    pub fn init(admin: AccountId) -> (r: PropertyTokenization)
        ensures
            r.wf(),
            r.admin == admin,
            r.property@ == Map::<Seq<u8>, Seq<PropertyDetailsView>>::empty(),
    {
        PropertyTokenization { admin, property: Registry::new() }
    }

    /// The configured administrator.
    pub fn get_admin(&self) -> (r: AccountId)
        ensures
            r == self.admin,
    {
        self.admin
    }

    /// Adds a new, unverified property record under the calling owner's
    /// identity. The record's id is the fixed [`NEW_PROPERTY_ID`]; the
    /// offered percentage is stored as given, without any range check.
    /// Fails with `NoSuchOwner` when the caller has no entry yet: nothing
    /// bootstraps a brand-new owner.
    pub fn add_new_property(
        &mut self,
        caller: AccountId,
        total_tokens: u64,
        metadata: Metadata,
        total_offered_ownership_percentage: u8,
    ) -> (r: Result<(), Error>)
        requires
            old(self).wf(),
        ensures
            final(self).wf(),
            final(self).admin == old(self).admin,
            r == owner_result(old(self).property@, caller@),
            final(self).property@ == add_state(
                old(self).property@,
                caller@,
                new_property_view(total_tokens, metadata@, total_offered_ownership_percentage),
            ),
    {
        let new_property = PropertyDetails {
            property_id: NEW_PROPERTY_ID,
            total_tokens,
            metadata,
            total_offered_ownership_percentage,
            is_verified: false,
        };
        self.property.append(&caller, new_property)
    }

    /// The one-way verification workflow: the access controller gates the
    /// call, then every record of `property_owner` whose id matches is
    /// marked verified in one read-modify-write. A present owner without a
    /// matching record is a silent success; a missing owner is
    /// `NoSuchOwner`; any caller but the admin gets `Unauthorized` before
    /// anything is read.
    pub fn verify_property(
        &mut self,
        caller: AccountId,
        property_owner: AccountId,
        property_id: PropertyId,
    ) -> (r: Result<(), Error>)
        requires
            old(self).wf(),
        ensures
            final(self).wf(),
            final(self).admin == old(self).admin,
            r == verify_result(old(self).admin@, old(self).property@, caller@, property_owner@),
            final(self).property@ == verify_state(
                old(self).admin@,
                old(self).property@,
                caller@,
                property_owner@,
                property_id,
            ),
    {
        match authorize(&caller, &self.admin) {
            Ok(()) => self.property.set_verified(&property_owner, property_id),
            Err(e) => Err(e),
        }
    }
}

} // verus!
