//! What holds of the projections, whatever the records.
//!
//! Each law is stated over the views and spec functions that the contracts
//! of [`crate::site`] use, so it applies to whatever those functions return.

use vstd::prelude::*;

use crate::mef::{MEFSite, MEFSiteView};
use crate::site::{first_party_named, SiteVal, SiteValView, INDIVIDUAL, NO_NAME, NO_TMF_DESCRIPTION};
use crate::tmf::{TMFSite, TMFSiteView};

verus! {

/// A MEF site keeps its name on the way to the TMF schema: every TMF site
/// that it projects to has a name, and it is the name of the MEF site.
pub proof fn lemma_projection_keeps_name(mef: MEFSiteView, tmf: TMFSiteView)
    requires
        mef.projects_to(tmf),
    ensures
        tmf.name == Some(mef.name),
{
}

/// Wrapping a record and projecting it onto its own schema changes nothing:
/// a wrapped TMF record projects to itself and to nothing else on the TMF
/// side, and a wrapped MEF record always has a MEF projection, which is
/// itself.
pub proof fn lemma_own_schema_projection_is_identity(tmf: TMFSite, mef: MEFSite, r: TMFSiteView)
    ensures
        <SiteVal as vstd::std_specs::convert::FromSpec<TMFSite>>::from_spec(tmf)@.projects_to_tmf(r)
            <==> r == tmf@,
        <SiteVal as vstd::std_specs::convert::FromSpec<MEFSite>>::from_spec(
            mef,
        )@.has_mef_projection(),
        <SiteVal as vstd::std_specs::convert::FromSpec<MEFSite>>::from_spec(mef)@.mef_projection()
            == mef@,
{
}

/// The contacts of a MEF site are lifted one for one: a TMF site that it
/// projects to has as many parties as the MEF site has contacts, and the
/// party at each place has the name of the contact at that place and the
/// base type [`INDIVIDUAL`].
pub proof fn lemma_contacts_are_lifted(mef: MEFSiteView, tmf: TMFSiteView)
    requires
        mef.projects_to(tmf),
    ensures
        tmf.related_party is Some,
        tmf.related_party->0.len() == mef.related_contact_information.len(),
        forall|i: int|
            0 <= i < mef.related_contact_information.len() ==> {
                &&& (#[trigger] tmf.related_party->0[i]).name == Some(
                    mef.related_contact_information[i].name,
                )
                &&& tmf.related_party->0[i].base_type == Some(INDIVIDUAL@)
            },
{
}

/// A TMF site without a description projects to a MEF site whose
/// description is [`NO_TMF_DESCRIPTION`].
pub proof fn lemma_missing_description_is_replaced(tmf: TMFSiteView)
    requires
        tmf.description is None,
    ensures
        tmf.as_mef().description == NO_TMF_DESCRIPTION@,
{
}

/// A TMF site without parties, be the list absent or empty, can be projected
/// onto the MEF schema, and the company name of its projection is
/// [`NO_NAME`].
pub proof fn lemma_missing_parties_are_replaced(tmf: TMFSiteView)
    requires
        tmf.related_party is None || tmf.related_party->0.len() == 0,
    ensures
        first_party_named(tmf.related_party),
        tmf.as_mef().company_name == NO_NAME@,
{
}

/// A new TMF site that is filled from a MEF site of the same name is a
/// projection of that MEF site, whichever identifier, reference and code the
/// new site was given.
pub proof fn lemma_filled_new_site_is_projection(fresh: TMFSiteView, mef: MEFSiteView)
    requires
        fresh.is_new(mef.name),
    ensures
        mef.projects_to(fresh.filled_from(mef)),
{
}

/// What a MEF site projects to can be projected back: each of its parties
/// has a name, so the first one has.
pub proof fn lemma_projection_can_be_projected_back(mef: MEFSiteView, tmf: TMFSiteView)
    requires
        mef.projects_to(tmf),
    ensures
        first_party_named(tmf.related_party),
        SiteValView::TMF(tmf).has_mef_projection(),
{
}

} // verus!
