//! The property record data model and the registry's error taxonomy.

use vstd::prelude::*;

verus! {

/// Identifier of a property record; unique only per owner by convention,
/// and not enforced anywhere.
pub type PropertyId = u32;

/// The identifier given to every newly added property record. Callers have
/// no control over it, so repeated additions collide on purpose.
pub const NEW_PROPERTY_ID: PropertyId = 5;

/// Every failure the registry can report. Both variants are terminal,
/// non-retryable outcomes; there is no fatal error class.
#[derive(Debug, Clone, Copy, PartialEq, Eq, Structural)]
pub enum Error {
    /// The caller of a privileged operation is not the configured
    /// administrator.
    Unauthorized,
    /// The referenced owner has no entry at all in the registry.
    NoSuchOwner,
}

/// Descriptive payload of one tokenization offer. `area_offered` is expected
/// to stay below `total_area`, but nothing enforces that.
#[derive(Debug, Clone, PartialEq, Eq)]
pub struct Metadata {
    /// Physical address of the property.
    pub address: String,
    /// What area is being offered.
    pub area_offered: u32,
    /// Total area of the property.
    pub total_area: u32,
    /// Short description of the property.
    pub description: String,
}

/// Mathematical value of a [`Metadata`]: the same fields with text as
/// character sequences.
pub ghost struct MetadataView {
    pub address: Seq<char>,
    pub area_offered: u32,
    pub total_area: u32,
    pub description: Seq<char>,
}

impl View for Metadata {
    type V = MetadataView;

    open spec fn view(&self) -> MetadataView {
        MetadataView {
            address: self.address@,
            area_offered: self.area_offered,
            total_area: self.total_area,
            description: self.description@,
        }
    }
}

/// One tokenization offer. A record is created unverified and is mutated in
/// place only by the verification workflow, which may flip `is_verified`
/// one way; it is never deleted or superseded.
#[derive(Debug, Clone, PartialEq, Eq)]
pub struct PropertyDetails {
    /// The id of the property.
    pub property_id: PropertyId,
    /// Total tokens that are offered for the property.
    pub total_tokens: u64,
    /// Additional information about the property.
    pub metadata: Metadata,
    /// What percentage of the property is offered as tokens. Semantically a
    /// value from zero to one hundred, but any value the type allows is
    /// accepted without complaint.
    pub total_offered_ownership_percentage: u8,
    /// Only verified properties can be listed for tokenization. Until a
    /// property is verified it can only be viewed.
    pub is_verified: bool,
}

/// Mathematical value of a [`PropertyDetails`].
pub ghost struct PropertyDetailsView {
    pub property_id: PropertyId,
    pub total_tokens: u64,
    pub metadata: MetadataView,
    pub total_offered_ownership_percentage: u8,
    pub is_verified: bool,
}

impl View for PropertyDetails {
    type V = PropertyDetailsView;

    open spec fn view(&self) -> PropertyDetailsView {
        PropertyDetailsView {
            property_id: self.property_id,
            total_tokens: self.total_tokens,
            metadata: self.metadata@,
            total_offered_ownership_percentage: self.total_offered_ownership_percentage,
            is_verified: self.is_verified,
        }
    }
}

} // verus!
