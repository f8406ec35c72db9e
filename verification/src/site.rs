//! The unified site value and its projections into either schema.
//!
//! A [`SiteVal`] holds one record, of one schema or the other. Projecting it
//! onto the schema it already has hands the record back. Projecting it onto
//! the other schema carries over the name, the description and the people:
//! every MEF contact becomes a TMF party, and the first TMF party names the
//! MEF company. Where the TMF side has nothing to give, the MEF side gets a
//! fixed placeholder text.

use vstd::prelude::*;

use crate::mef::{contact_views, ContactView, MEFSite, MEFSiteView, RelatedContactInformation};
use crate::tmf::{
    effective_name, party_list_views, PartyView, RelatedParty, TMFSite, TMFSiteView,
};

verus! {

/// The MEF description of a TMF site that has none.
pub const NO_TMF_DESCRIPTION: &'static str = "No TMF description";

/// The MEF company name of a TMF site without related parties.
pub const NO_NAME: &'static str = "No name";

/// The base type of a TMF party that stands for a MEF contact.
pub const INDIVIDUAL: &'static str = "individual";

/// The TMF party that stands for a MEF contact: it has the contact's name,
/// the base type [`INDIVIDUAL`], and nothing else.
pub open spec fn contact_as_party(contact: ContactView) -> PartyView {
    PartyView { name: Some(contact.name), base_type: Some(INDIVIDUAL@), ..PartyView::blank() }
}

/// The TMF parties that stand for a list of MEF contacts, one for one and in
/// the same order.
pub open spec fn contacts_as_parties(contacts: Seq<ContactView>) -> Seq<PartyView> {
    contacts.map_values(|c: ContactView| contact_as_party(c))
}

/// Whether a MEF company name can be read off these parties: where there is
/// a first party, it has a name.
pub open spec fn first_party_named(parties: Option<Seq<PartyView>>) -> bool {
    parties matches Some(ps) ==> ps.len() > 0 ==> ps[0].name is Some
}

/// The MEF company name read off the parties of a TMF site: the name of the
/// first party, or [`NO_NAME`] where the list is absent or empty. Later
/// parties have no bearing on it.
pub open spec fn company_name(parties: Option<Seq<PartyView>>) -> Seq<char>
    recommends
        first_party_named(parties),
{
    match parties {
        Some(ps) => if ps.len() > 0 {
            ps[0].name->0
        } else {
            NO_NAME@
        },
        None => NO_NAME@,
    }
}

/// The MEF description of a TMF site: its own, or [`NO_TMF_DESCRIPTION`].
pub open spec fn description_or_placeholder(description: Option<Seq<char>>) -> Seq<char> {
    match description {
        Some(d) => d,
        None => NO_TMF_DESCRIPTION@,
    }
}

impl TMFSiteView {
    /// This site with the description and the contacts of `mef` laid over
    /// it: the description becomes that of `mef`, the parties become the
    /// contacts of `mef`, and every other field stays.
    pub open spec fn filled_from(self, mef: MEFSiteView) -> TMFSiteView {
        TMFSiteView {
            description: Some(mef.description),
            related_party: Some(contacts_as_parties(mef.related_contact_information)),
            ..self
        }
    }

    /// The MEF site that this TMF site projects to. Beyond name, description
    /// and company name it is the blank MEF site: no identifier, no contacts,
    /// no addresses.
    pub open spec fn as_mef(self) -> MEFSiteView
        recommends
            first_party_named(self.related_party),
    {
        MEFSiteView {
            name: effective_name(self.name),
            description: description_or_placeholder(self.description),
            company_name: company_name(self.related_party),
            ..MEFSiteView::blank()
        }
    }
}

impl MEFSiteView {
    /// Whether `tmf` is a TMF site that this MEF site projects to: it
    /// carries this site's description and one party for each of its
    /// contacts, and is in every other field a new site of the same name.
    /// Postal addresses have no place in it.
    pub open spec fn projects_to(self, tmf: TMFSiteView) -> bool {
        &&& tmf.description == Some(self.description)
        &&& tmf.related_party == Some(contacts_as_parties(self.related_contact_information))
        &&& (TMFSiteView { description: None, related_party: None, ..tmf }).is_new(self.name)
    }
}

/// A geographic site in one of the two schemas.
#[derive(Debug)]
pub enum SiteVal {
    /// A site of the TMF schema.
    TMF(TMFSite),
    /// A site of the MEF schema.
    MEF(MEFSite),
}

/// What a [`SiteVal`] holds.
pub enum SiteValView {
    TMF(TMFSiteView),
    MEF(MEFSiteView),
}

impl SiteValView {
    /// Whether `tmf` is a projection of this value onto the TMF schema: the
    /// record itself where it is a TMF one, else a projection of the MEF
    /// record.
    pub open spec fn projects_to_tmf(self, tmf: TMFSiteView) -> bool {
        match self {
            SiteValView::TMF(own) => tmf == own,
            SiteValView::MEF(mef) => mef.projects_to(tmf),
        }
    }

    /// Whether this value can be projected onto the MEF schema. Only a TMF
    /// record whose first party has no name cannot.
    pub open spec fn has_mef_projection(self) -> bool {
        self matches SiteValView::TMF(tmf) ==> first_party_named(tmf.related_party)
    }

    /// The projection of this value onto the MEF schema: the record itself
    /// where it is a MEF one.
    pub open spec fn mef_projection(self) -> MEFSiteView
        recommends
            self.has_mef_projection(),
    {
        match self {
            SiteValView::TMF(tmf) => tmf.as_mef(),
            SiteValView::MEF(own) => own,
        }
    }
}

impl View for SiteVal {
    type V = SiteValView;

    open spec fn view(&self) -> SiteValView {
        match self {
            SiteVal::TMF(tmf) => SiteValView::TMF(tmf@),
            SiteVal::MEF(mef) => SiteValView::MEF(mef@),
        }
    }
}

impl Clone for SiteVal {
    fn clone(&self) -> (r: Self)
        ensures
            r@ == self@,
    {
        match self {
            SiteVal::TMF(tmf) => SiteVal::TMF(tmf.clone()),
            SiteVal::MEF(mef) => SiteVal::MEF(mef.clone()),
        }
    }
}

impl From<MEFSite> for SiteVal {
    fn from(value: MEFSite) -> (r: Self) {
        SiteVal::MEF(value)
    }
}

impl vstd::std_specs::convert::FromSpecImpl<MEFSite> for SiteVal {
    open spec fn obeys_from_spec() -> bool {
        true
    }

    open spec fn from_spec(value: MEFSite) -> SiteVal {
        SiteVal::MEF(value)
    }
}

impl From<TMFSite> for SiteVal {
    fn from(value: TMFSite) -> (r: Self) {
        SiteVal::TMF(value)
    }
}

impl vstd::std_specs::convert::FromSpecImpl<TMFSite> for SiteVal {
    open spec fn obeys_from_spec() -> bool {
        true
    }

    open spec fn from_spec(value: TMFSite) -> SiteVal {
        SiteVal::TMF(value)
    }
}

impl SiteVal {
    /// Whether this value can be projected onto the MEF schema.
    pub fn has_mef_projection(&self) -> (b: bool)
        ensures
            b == self@.has_mef_projection(),
    {
        match self {
            SiteVal::MEF(_) => true,
            SiteVal::TMF(tmf) => match &tmf.related_party {
                Some(parties) => parties.len() == 0 || parties[0].name.is_some(),
                None => true,
            },
        }
    }
}

/// The TMF party that stands for `contact`.
pub fn contact_to_party(contact: &RelatedContactInformation) -> (r: RelatedParty)
    ensures
        r@ == contact_as_party(contact@),
{
    let mut party = RelatedParty::default();
    party.name = Some(contact.name.clone());
    party.base_type = Some(INDIVIDUAL.to_owned());
    party
}

/// The TMF parties that stand for `contacts`, one for one and in the same
/// order.
pub fn contacts_to_parties(contacts: &Vec<RelatedContactInformation>) -> (r: Vec<RelatedParty>)
    ensures
        party_list_views(r@) == contacts_as_parties(contact_views(contacts@)),
{
    let mut parties: Vec<RelatedParty> = Vec::new();
    let mut i: usize = 0;
    while i < contacts.len()
        invariant
            i <= contacts.len(),
            parties.len() == i,
            forall|j: int|
                0 <= j < i ==> (#[trigger] parties@[j])@ == contact_as_party(contacts@[j]@),
        decreases contacts.len() - i,
    {
        parties.push(contact_to_party(&contacts[i]));
        i += 1;
    }
    assert(party_list_views(parties@) =~= contacts_as_parties(contact_views(contacts@)));
    parties
}

impl TMFSite {
    /// This site with the description and the contacts of `mef` laid over
    /// it. Every other field stays as it is, the name too.
    pub fn filled_from(self, mef: MEFSite) -> (r: TMFSite)
        ensures
            r@ == self@.filled_from(mef@),
    {
        let parties = contacts_to_parties(&mef.related_contact_information);
        let mut site = self;
        site.description = Some(mef.description);
        site.related_party = Some(parties);
        site
    }

    /// Projects `value` onto the TMF schema. A TMF record comes back as it
    /// is. A MEF record becomes a new TMF site of the same name, with an
    /// identifier of its own, that carries the description and the contacts
    /// of the MEF record.
    ///
    /// This is an associated function and no `From`: the identifier is drawn
    /// anew at each call, so the result is not a function of `value`.
    pub fn from(value: SiteVal) -> (r: TMFSite)
        ensures
            value@.projects_to_tmf(r@),
    {
        match value {
            SiteVal::TMF(tmf) => tmf,
            SiteVal::MEF(mef) => {
                let site = TMFSite::new(mef.name.as_str());
                site.filled_from(mef)
            },
        }
    }
}

impl MEFSite {
    /// Projects `value` onto the MEF schema. A MEF record comes back as it
    /// is. A TMF record becomes a MEF site with its name, its description or
    /// [`NO_TMF_DESCRIPTION`], and as company name the name of its first
    /// party or [`NO_NAME`]; every other field is that of the blank site.
    ///
    /// A TMF record whose first party has no name has no company name to
    /// give, and is not accepted. That is why this is an associated function
    /// and no `From`; [`SiteVal::has_mef_projection`] tests a value.
    pub fn from(value: SiteVal) -> (r: MEFSite)
        requires
            value@.has_mef_projection(),
        ensures
            r@ == value@.mef_projection(),
    {
        match value {
            SiteVal::TMF(tmf) => {
                let name = tmf.get_name();
                let description = match tmf.description {
                    Some(d) => d,
                    None => NO_TMF_DESCRIPTION.to_owned(),
                };
                let company_name = match tmf.related_party {
                    Some(parties) => if parties.len() > 0 {
                        parties[0].name.clone().unwrap()
                    } else {
                        NO_NAME.to_owned()
                    },
                    None => NO_NAME.to_owned(),
                };
                MEFSite { name, description, company_name, ..MEFSite::default() }
            },
            SiteVal::MEF(mef) => mef,
        }
    }
}

/// A MEF site on its way to either schema.
pub struct MEFTMF {
    val: SiteVal,
}

impl MEFTMF {
    /// The value inside is always a MEF record: nothing else makes one.
    #[verifier::type_invariant]
    spec fn holds_mef(self) -> bool {
        self.val is MEF
    }

    /// The value that holds `mef`.
    pub closed spec fn holding(mef: MEFSite) -> MEFTMF {
        MEFTMF { val: SiteVal::MEF(mef) }
    }

    /// The MEF record inside.
    pub fn mef(&self) -> (r: MEFSite)
        ensures
            self@ == SiteValView::MEF(r@),
    {
        proof {
            use_type_invariant(self);
        }
        MEFSite::from(self.val.clone())
    }

    /// The record inside, projected onto the TMF schema.
    pub fn tmf(&self) -> (r: TMFSite)
        ensures
            self@ is MEF,
            self@.projects_to_tmf(r@),
    {
        proof {
            use_type_invariant(self);
        }
        TMFSite::from(self.val.clone())
    }
}

impl View for MEFTMF {
    type V = SiteValView;

    closed spec fn view(&self) -> SiteValView {
        self.val@
    }
}

impl From<MEFSite> for MEFTMF {
    fn from(value: MEFSite) -> (r: Self)
        ensures
            r@ == SiteValView::MEF(value@),
    {
        MEFTMF { val: SiteVal::MEF(value) }
    }
}

impl vstd::std_specs::convert::FromSpecImpl<MEFSite> for MEFTMF {
    open spec fn obeys_from_spec() -> bool {
        true
    }

    open spec fn from_spec(value: MEFSite) -> MEFTMF {
        MEFTMF::holding(value)
    }
}

/// Converts a MEF site into a TMF site: a new TMF site of the same name that
/// carries the description of `mef` and one party for each of its contacts.
pub fn mef_to_tmf_site(mef: MEFSite) -> (r: TMFSite)
    ensures
        mef@.projects_to(r@),
{
    let siteval = SiteVal::from(mef);
    TMFSite::from(siteval)
}

/// Converts a TMF site into a MEF site with its name, its description or
/// [`NO_TMF_DESCRIPTION`], and as company name the name of its first party
/// or [`NO_NAME`].
///
/// A site whose first party has no name is not accepted.
pub fn tmf_to_mef_site(tmf: TMFSite) -> (r: MEFSite)
    requires
        first_party_named(tmf@.related_party),
    ensures
        r@ == tmf@.as_mef(),
{
    let siteval = SiteVal::from(tmf);
    MEFSite::from(siteval)
}

} // verus!
