//! Records of the MEF geographic site schema.
//!
//! The two records here hold, as plain values, every field of meflib's site
//! and contact. Each has a view that the contracts of the crate speak of.

use vstd::prelude::*;

use meflib::w122::geographic_site::FieldedAddress;

verus! {

/// meflib's postal address. Its fields are private to meflib, so a site only
/// carries addresses along; nothing in this crate looks inside one.
#[verifier::external_type_specification]
#[verifier::external_body]
pub struct ExFieldedAddress(meflib::w122::geographic_site::FieldedAddress);

/// `Clone::clone` of meflib's postal address, which meflib derives: the copy
/// holds the same three texts, so it is the same value.
pub assume_specification[ <meflib::w122::geographic_site::FieldedAddress as Clone>::clone ](
    a: &meflib::w122::geographic_site::FieldedAddress,
) -> (r: meflib::w122::geographic_site::FieldedAddress)
    ensures
        r == *a,
;

/// Whether a site is open to the public.
#[derive(Clone, Copy, Debug, PartialEq, Eq)]
pub enum MEFSiteType {
    Public,
    Private,
}

/// A named contact of a MEF site.
#[derive(Debug, PartialEq, Eq)]
pub struct RelatedContactInformation {
    pub email_address: String,
    pub name: String,
    pub number: String,
    pub number_extension: String,
    pub organization: String,
    pub role: String,
}

/// What a contact holds.
pub struct ContactView {
    pub email_address: Seq<char>,
    pub name: Seq<char>,
    pub number: Seq<char>,
    pub number_extension: Seq<char>,
    pub organization: Seq<char>,
    pub role: Seq<char>,
}

impl ContactView {
    /// The contact whose every text is empty.
    pub open spec fn blank() -> ContactView {
        ContactView {
            email_address: Seq::empty(),
            name: Seq::empty(),
            number: Seq::empty(),
            number_extension: Seq::empty(),
            organization: Seq::empty(),
            role: Seq::empty(),
        }
    }
}

impl View for RelatedContactInformation {
    type V = ContactView;

    open spec fn view(&self) -> ContactView {
        ContactView {
            email_address: self.email_address@,
            name: self.name@,
            number: self.number@,
            number_extension: self.number_extension@,
            organization: self.organization@,
            role: self.role@,
        }
    }
}

impl Clone for RelatedContactInformation {
    fn clone(&self) -> (r: Self)
        ensures
            r@ == self@,
    {
        RelatedContactInformation {
            email_address: self.email_address.clone(),
            name: self.name.clone(),
            number: self.number.clone(),
            number_extension: self.number_extension.clone(),
            organization: self.organization.clone(),
            role: self.role.clone(),
        }
    }
}

impl Default for RelatedContactInformation {
    fn default() -> (r: Self)
        ensures
            r@ == ContactView::blank(),
    {
        RelatedContactInformation {
            email_address: String::new(),
            name: String::new(),
            number: String::new(),
            number_extension: String::new(),
            organization: String::new(),
            role: String::new(),
        }
    }
}

/// The views of a list of contacts, in the list's order.
pub open spec fn contact_views(contacts: Seq<RelatedContactInformation>) -> Seq<ContactView> {
    contacts.map_values(|c: RelatedContactInformation| c@)
}

/// A geographic site as the MEF schema shapes it. No field is optional: a
/// text that was never set is empty, and so is a list.
#[derive(Debug)]
pub struct MEFSite {
    pub id: String,
    pub href: String,
    pub name: String,
    pub description: String,
    pub company_name: String,
    pub customer_name: String,
    pub related_contact_information: Vec<RelatedContactInformation>,
    pub site_type: MEFSiteType,
    pub postal_address: Vec<FieldedAddress>,
}

/// What a MEF site holds.
pub struct MEFSiteView {
    pub id: Seq<char>,
    pub href: Seq<char>,
    pub name: Seq<char>,
    pub description: Seq<char>,
    pub company_name: Seq<char>,
    pub customer_name: Seq<char>,
    pub related_contact_information: Seq<ContactView>,
    pub site_type: MEFSiteType,
    pub postal_address: Seq<FieldedAddress>,
}

impl MEFSiteView {
    /// The site that the schema starts from: every text and both lists
    /// empty, open to the public.
    pub open spec fn blank() -> MEFSiteView {
        MEFSiteView {
            id: Seq::empty(),
            href: Seq::empty(),
            name: Seq::empty(),
            description: Seq::empty(),
            company_name: Seq::empty(),
            customer_name: Seq::empty(),
            related_contact_information: Seq::empty(),
            site_type: MEFSiteType::Public,
            postal_address: Seq::empty(),
        }
    }
}

impl View for MEFSite {
    type V = MEFSiteView;

    open spec fn view(&self) -> MEFSiteView {
        MEFSiteView {
            id: self.id@,
            href: self.href@,
            name: self.name@,
            description: self.description@,
            company_name: self.company_name@,
            customer_name: self.customer_name@,
            related_contact_information: contact_views(self.related_contact_information@),
            site_type: self.site_type,
            postal_address: self.postal_address@,
        }
    }
}

/// `Default::default` of meflib's geographic site, handed back field by
/// field. meflib derives it: every text is empty, both lists are empty, and
/// the site type is the variant that meflib marks as its default, `Public`.
#[verifier::external_body]
fn schema_default_site() -> (r: MEFSite)
    ensures
        r@ == MEFSiteView::blank(),
{
    let d = meflib::w122::geographic_site::GeographicSite::default();
    let contacts = d.related_contact_information.into_iter().map(|c| RelatedContactInformation {
        email_address: c.email_address, name: c.name, number: c.number,
        number_extension: c.number_extension, organization: c.organization, role: c.role,
    }).collect();
    let site_type = match d.site_type {
        meflib::w122::geographic_site::MEFSiteType::Public => MEFSiteType::Public,
        meflib::w122::geographic_site::MEFSiteType::Private => MEFSiteType::Private,
    };
    MEFSite {
        id: d.id, href: d.href, name: d.name, description: d.description,
        company_name: d.company_name, customer_name: d.customer_name,
        related_contact_information: contacts, site_type, postal_address: d.postal_address,
    }
}

impl Default for MEFSite {
    /// The site that the schema starts from.
    fn default() -> (r: Self)
        ensures
            r@ == MEFSiteView::blank(),
    {
        schema_default_site()
    }
}

impl Clone for MEFSite {
    fn clone(&self) -> (r: Self)
        ensures
            r@ == self@,
    {
        let contacts = self.related_contact_information.clone();
        let addresses = self.postal_address.clone();
        assert(contact_views(contacts@) =~= contact_views(self.related_contact_information@));
        assert(addresses@ =~= self.postal_address@);
        MEFSite {
            id: self.id.clone(),
            href: self.href.clone(),
            name: self.name.clone(),
            description: self.description.clone(),
            company_name: self.company_name.clone(),
            customer_name: self.customer_name.clone(),
            related_contact_information: contacts,
            site_type: self.site_type,
            postal_address: addresses,
        }
    }
}

} // verus!
