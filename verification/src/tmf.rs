//! Records of the TMF geographic site schema.
//!
//! Nearly every field of the schema is optional. A site made by
//! [`TMFSite::new`] gets its identifier, its reference and its code from
//! tmflib, which draws a fresh identifier for each site.

use vstd::prelude::*;

verus! {

/// The name that a site without a name answers with.
pub const TMF_NO_NAME: &'static str = "NoName";

/// A party related to a TMF site: a reference to a customer, an organisation
/// or an individual.
#[derive(Debug, PartialEq, Eq)]
pub struct RelatedParty {
    pub id: String,
    pub href: String,
    pub name: Option<String>,
    pub role: Option<String>,
    pub base_type: Option<String>,
    pub schema_location: Option<String>,
    pub referred_type: Option<String>,
}

/// What a related party holds.
pub struct PartyView {
    pub id: Seq<char>,
    pub href: Seq<char>,
    pub name: Option<Seq<char>>,
    pub role: Option<Seq<char>>,
    pub base_type: Option<Seq<char>>,
    pub schema_location: Option<Seq<char>>,
    pub referred_type: Option<Seq<char>>,
}

impl PartyView {
    /// The party that the schema starts from: both texts empty, every
    /// optional field absent.
    pub open spec fn blank() -> PartyView {
        PartyView {
            id: Seq::empty(),
            href: Seq::empty(),
            name: None,
            role: None,
            base_type: None,
            schema_location: None,
            referred_type: None,
        }
    }
}

impl View for RelatedParty {
    type V = PartyView;

    open spec fn view(&self) -> PartyView {
        PartyView {
            id: self.id@,
            href: self.href@,
            name: self.name.deep_view(),
            role: self.role.deep_view(),
            base_type: self.base_type.deep_view(),
            schema_location: self.schema_location.deep_view(),
            referred_type: self.referred_type.deep_view(),
        }
    }
}

/// `Default::default` of tmflib's related party, handed back field by field.
/// tmflib derives it: the identifier and the reference are empty texts and
/// every optional field is absent.
#[verifier::external_body]
fn schema_default_party() -> (r: RelatedParty)
    ensures
        r@ == PartyView::blank(),
{
    let d = tmflib::common::related_party::RelatedParty::default();
    RelatedParty {
        id: d.id, href: d.href, name: d.name, role: d.role, base_type: d.base_type,
        schema_location: d.schema_location, referred_type: d.referred_type,
    }
}

impl Default for RelatedParty {
    /// The party that the schema starts from.
    fn default() -> (r: Self)
        ensures
            r@ == PartyView::blank(),
    {
        schema_default_party()
    }
}

impl Clone for RelatedParty {
    fn clone(&self) -> (r: Self)
        ensures
            r@ == self@,
    {
        RelatedParty {
            id: self.id.clone(),
            href: self.href.clone(),
            name: self.name.clone(),
            role: self.role.clone(),
            base_type: self.base_type.clone(),
            schema_location: self.schema_location.clone(),
            referred_type: self.referred_type.clone(),
        }
    }
}

/// The views of a list of parties, in the list's order.
pub open spec fn party_list_views(parties: Seq<RelatedParty>) -> Seq<PartyView> {
    parties.map_values(|p: RelatedParty| p@)
}

/// The views of the parties of a site, where it has a list of them.
pub open spec fn party_views(parties: Option<Vec<RelatedParty>>) -> Option<Seq<PartyView>> {
    match parties {
        Some(v) => Some(party_list_views(v@)),
        None => None,
    }
}

/// A geographic site as the TMF schema shapes it.
#[derive(Debug, PartialEq, Eq)]
pub struct TMFSite {
    pub id: Option<String>,
    pub href: Option<String>,
    pub code: Option<String>,
    pub description: Option<String>,
    pub name: Option<String>,
    pub status: Option<String>,
    pub related_party: Option<Vec<RelatedParty>>,
}

/// What a TMF site holds.
pub struct TMFSiteView {
    pub id: Option<Seq<char>>,
    pub href: Option<Seq<char>>,
    pub code: Option<Seq<char>>,
    pub description: Option<Seq<char>>,
    pub name: Option<Seq<char>>,
    pub status: Option<Seq<char>>,
    pub related_party: Option<Seq<PartyView>>,
}

impl TMFSiteView {
    /// The site with every field absent.
    pub open spec fn blank() -> TMFSiteView {
        TMFSiteView {
            id: None,
            href: None,
            code: None,
            description: None,
            name: None,
            status: None,
            related_party: None,
        }
    }

    /// Whether this is a site as [`TMFSite::new`] makes it for `name`: it
    /// carries that name, an identifier, a reference and a code, and nothing
    /// else. Which identifier, reference and code is not determined.
    pub open spec fn is_new(self, name: Seq<char>) -> bool {
        &&& self.name == Some(name)
        &&& self.id is Some
        &&& self.href is Some
        &&& self.code is Some
        &&& self.description is None
        &&& self.status is None
        &&& self.related_party is None
    }
}

impl View for TMFSite {
    type V = TMFSiteView;

    open spec fn view(&self) -> TMFSiteView {
        TMFSiteView {
            id: self.id.deep_view(),
            href: self.href.deep_view(),
            code: self.code.deep_view(),
            description: self.description.deep_view(),
            name: self.name.deep_view(),
            status: self.status.deep_view(),
            related_party: party_views(self.related_party),
        }
    }
}

/// The name that a site answers with: its own where it has one, and
/// [`TMF_NO_NAME`] where it has none.
pub open spec fn effective_name(name: Option<Seq<char>>) -> Seq<char> {
    match name {
        Some(n) => n,
        None => TMF_NO_NAME@,
    }
}

/// `GeographicSite::new` of tmflib, handed back field by field. It starts
/// from the default site, in which every field is absent, gives it a freshly
/// drawn identifier and the reference that goes with it, stores the name as
/// it was passed, and derives a code from name and identifier. Nothing is
/// claimed of which identifier, reference and code come out.
#[verifier::external_body]
fn schema_new_site(name: &str) -> (r: TMFSite)
    ensures
        r@.is_new(name@),
{
    let t = tmflib::tmf674::geographic_site_v4::GeographicSite::new(name);
    let parties = t.related_party.map(|v| v.into_iter().map(|p| RelatedParty {
        id: p.id, href: p.href, name: p.name, role: p.role, base_type: p.base_type,
        schema_location: p.schema_location, referred_type: p.referred_type,
    }).collect());
    TMFSite {
        id: t.id, href: t.href, code: t.code, description: t.description, name: t.name,
        status: t.status, related_party: parties,
    }
}

/// `HasName::get_name` of tmflib's geographic site, asked of a site that
/// holds `name` and is otherwise the default one. It answers with a copy of
/// the name, or with the text `NoName` where the site has no name; it reads
/// no other field.
#[verifier::external_body]
fn schema_name(name: &Option<String>) -> (r: String)
    ensures
        r@ == effective_name(name.deep_view()),
{
    let mut t = tmflib::tmf674::geographic_site_v4::GeographicSite::default();
    t.name = name.clone();
    tmflib::HasName::get_name(&t)
}

impl TMFSite {
    /// A new site called `name`, with an identifier, a reference and a code
    /// of its own.
    pub fn new(name: &str) -> (r: TMFSite)
        ensures
            r@.is_new(name@),
    {
        schema_new_site(name)
    }

    /// The name of this site, or [`TMF_NO_NAME`] where it has none.
    pub fn get_name(&self) -> (r: String)
        ensures
            r@ == effective_name(self@.name),
    {
        schema_name(&self.name)
    }
}

impl Default for TMFSite {
    /// The site with every field absent.
    fn default() -> (r: Self)
        ensures
            r@ == TMFSiteView::blank(),
    {
        TMFSite {
            id: None,
            href: None,
            code: None,
            description: None,
            name: None,
            status: None,
            related_party: None,
        }
    }
}

impl Clone for TMFSite {
    fn clone(&self) -> (r: Self)
        ensures
            r@ == self@,
    {
        let parties = match &self.related_party {
            Some(v) => {
                let copy = v.clone();
                assert(party_list_views(copy@) =~= party_list_views(v@));
                Some(copy)
            },
            None => None,
        };
        TMFSite {
            id: self.id.clone(),
            href: self.href.clone(),
            code: self.code.clone(),
            description: self.description.clone(),
            name: self.name.clone(),
            status: self.status.clone(),
            related_party: parties,
        }
    }
}

} // verus!
