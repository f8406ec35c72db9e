use mef2tmf::{MEFSite, MEFSiteType, RelatedContactInformation, RelatedParty, SiteVal, TMFSite};
use meflib::w122::geographic_site::GeographicSite as MefRecord;
use tmflib::common::related_party::RelatedParty as TmfParty;
use tmflib::tmf674::geographic_site_v4::GeographicSite as TmfRecord;
use tmflib::HasName;

#[test]
fn default_mef_site_is_blank() {
    let site = MEFSite::default();

    assert_eq!(site.id, "");
    assert_eq!(site.href, "");
    assert_eq!(site.name, "");
    assert_eq!(site.description, "");
    assert_eq!(site.company_name, "");
    assert_eq!(site.customer_name, "");
    assert!(site.related_contact_information.is_empty());
    assert_eq!(site.site_type, MEFSiteType::Public);
    assert!(site.postal_address.is_empty());
}

#[test]
fn default_mef_site_is_that_of_the_schema() {
    let site = MEFSite::default();
    let record = MefRecord::default();

    assert_eq!(site.id, record.id);
    assert_eq!(site.href, record.href);
    assert_eq!(site.name, record.name);
    assert_eq!(site.description, record.description);
    assert_eq!(site.company_name, record.company_name);
    assert_eq!(site.customer_name, record.customer_name);
    assert_eq!(site.related_contact_information.len(), record.related_contact_information.len());
    assert_eq!(site.postal_address.len(), record.postal_address.len());
}

#[test]
fn default_contact_is_blank() {
    let contact = RelatedContactInformation::default();

    assert_eq!(
        contact,
        RelatedContactInformation {
            email_address: String::new(),
            name: String::new(),
            number: String::new(),
            number_extension: String::new(),
            organization: String::new(),
            role: String::new(),
        }
    );
}

#[test]
fn default_party_is_blank() {
    let party = RelatedParty::default();

    assert_eq!(
        party,
        RelatedParty {
            id: String::new(),
            href: String::new(),
            name: None,
            role: None,
            base_type: None,
            schema_location: None,
            referred_type: None,
        }
    );
}

#[test]
fn default_party_is_that_of_the_schema() {
    let party = RelatedParty::default();
    let record = TmfParty::default();

    assert_eq!(party.id, record.id);
    assert_eq!(party.href, record.href);
    assert_eq!(party.name, record.name);
    assert_eq!(party.role, record.role);
    assert_eq!(party.base_type, record.base_type);
    assert_eq!(party.schema_location, record.schema_location);
    assert_eq!(party.referred_type, record.referred_type);
}

#[test]
fn default_tmf_site_has_nothing() {
    let site = TMFSite::default();

    assert_eq!(
        site,
        TMFSite {
            id: None,
            href: None,
            code: None,
            description: None,
            name: None,
            status: None,
            related_party: None,
        }
    );
}

#[test]
fn new_tmf_site_has_name_and_identity_only() {
    let site = TMFSite::new("A Site");

    assert_eq!(site.name, Some("A Site".to_string()));
    assert!(site.id.is_some());
    assert!(site.href.is_some());
    assert!(site.code.is_some());
    assert_eq!(site.description, None);
    assert_eq!(site.status, None);
    assert_eq!(site.related_party, None);
}

#[test]
fn new_tmf_site_keeps_the_name_as_given() {
    let site = TMFSite::new("  A Site ");

    assert_eq!(site.name, Some("  A Site ".to_string()));
    assert_eq!(site.get_name(), "  A Site ");
}

#[test]
fn new_tmf_sites_differ_in_identity() {
    let first = TMFSite::new("A Site");
    let second = TMFSite::new("A Site");

    assert_ne!(first.id, second.id);
    assert_eq!(first.name, second.name);
}

#[test]
fn new_tmf_site_is_shaped_as_the_schema_shapes_it() {
    let site = TMFSite::new("A Site");
    let record = TmfRecord::new("A Site");

    assert_eq!(site.name, record.name);
    assert_eq!(site.id.map(|i| i.len()), record.id.map(|i| i.len()));
    assert_eq!(site.code.map(|c| c.len()), record.code.map(|c| c.len()));
    assert_eq!(site.description, record.description);
    assert_eq!(site.status, record.status);
    assert!(record.related_party.is_none());
}

#[test]
fn name_of_a_named_site_is_its_name() {
    let mut site = TMFSite::default();
    site.name = Some("Depot".to_string());
    site.description = Some("not the name".to_string());

    assert_eq!(site.get_name(), "Depot");
}

#[test]
fn name_of_a_nameless_site_is_the_schema_placeholder() {
    let site = TMFSite::default();

    assert_eq!(site.get_name(), "NoName");
    assert_eq!(site.get_name(), TmfRecord::default().get_name());
}

#[test]
fn clones_are_equal() {
    let contact = RelatedContactInformation {
        email_address: "ada@example.org".to_string(),
        name: "Ada".to_string(),
        number: "555 0100".to_string(),
        number_extension: "7".to_string(),
        organization: "Analytical Engines".to_string(),
        role: "Engineer".to_string(),
    };
    assert_eq!(contact.clone(), contact);

    let party = RelatedParty {
        id: "acme".to_string(),
        href: "/party/acme".to_string(),
        name: Some("Acme".to_string()),
        role: Some("owner".to_string()),
        base_type: Some("organization".to_string()),
        schema_location: Some("/schema".to_string()),
        referred_type: Some("Organization".to_string()),
    };
    assert_eq!(party.clone(), party);

    let mut site = TMFSite::new("A Site");
    site.description = Some("A depot".to_string());
    site.related_party = Some(vec![party.clone(), RelatedParty::default()]);
    assert_eq!(site.clone(), site);

    let mut mef = MEFSite::default();
    mef.name = "Depot".to_string();
    mef.site_type = MEFSiteType::Private;
    mef.related_contact_information = vec![contact.clone()];
    let copy = mef.clone();
    assert_eq!(copy.name, "Depot");
    assert_eq!(copy.site_type, MEFSiteType::Private);
    assert_eq!(copy.related_contact_information, vec![contact]);
}

#[test]
fn cloned_value_holds_the_same_record() {
    let mut site = TMFSite::new("A Site");
    site.description = Some("A depot".to_string());
    let value = SiteVal::from(site.clone());

    match value.clone() {
        SiteVal::TMF(copy) => assert_eq!(copy, site),
        SiteVal::MEF(_) => panic!("a TMF value was cloned into a MEF value"),
    }

    let mut mef = MEFSite::default();
    mef.name = "Depot".to_string();
    match SiteVal::from(mef).clone() {
        SiteVal::MEF(copy) => assert_eq!(copy.name, "Depot"),
        SiteVal::TMF(_) => panic!("a MEF value was cloned into a TMF value"),
    }
}
