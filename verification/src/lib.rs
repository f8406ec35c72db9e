//! Conversion of geographic site records between the MEF and the TMF schema.
//!
//! The crate keeps its own plain record types for both schemas, so that every
//! field the conversion reads or writes is visible to the verifier, and states
//! each projection as a contract over the mathematical views of those records.

pub mod laws;
pub mod mef;
pub mod site;
pub mod tmf;

pub use crate::mef::{
    ContactView, MEFSite, MEFSiteType, MEFSiteView, RelatedContactInformation,
};
pub use crate::site::{
    mef_to_tmf_site, tmf_to_mef_site, MEFTMF, SiteVal, SiteValView, INDIVIDUAL, NO_NAME,
    NO_TMF_DESCRIPTION,
};
pub use crate::tmf::{PartyView, RelatedParty, TMFSite, TMFSiteView, TMF_NO_NAME};
