use telividb::sdk::system::{BudgetSource, System};
use telividb::sdk::tenancy_types::{Organization, Project, Protection, Space};
use telividb::sdk::wire;

#[test]
fn every_protection_round_trips_through_the_wire() {
    for p in [
        Protection::NoProtection,
        Protection::Private,
        Protection::Vault,
        Protection::Sealed,
    ] {
        assert_eq!(Protection::from_wire(p.as_wire()), p);
    }
}

#[test]
fn an_unknown_protection_reads_as_sealed() {
    assert_eq!(Protection::from_wire(0), Protection::Sealed);
    assert_eq!(Protection::from_wire(99), Protection::Sealed);
    assert_eq!(Protection::from_wire(-1), Protection::Sealed);
}

#[test]
fn protections_have_their_names() {
    assert_eq!(Protection::NoProtection.as_str(), "none");
    assert_eq!(Protection::Private.as_str(), "private");
    assert_eq!(Protection::Vault.as_str(), "vault");
    assert_eq!(Protection::Sealed.as_str(), "sealed");
}

#[test]
fn a_deleted_organization_says_so() {
    let org: Organization = wire::Organization {
        name: "organizations/acme".to_string(),
        display_name: "Acme".to_string(),
        project_count: 2,
        space_count: 1,
        delete_time: Some(wire::Timestamp { seconds: 5, nanos: 0 }),
    }
    .into();
    assert_eq!(org.name, "organizations/acme");
    assert_eq!(org.display_name, "Acme");
    assert_eq!(org.project_count, 2);
    assert_eq!(org.space_count, 1);
    assert!(org.deleted);
}

#[test]
fn a_live_project_is_not_deleted() {
    let project: Project = wire::Project {
        name: "organizations/acme/projects/p".to_string(),
        display_name: "P".to_string(),
        delete_time: None,
    }
    .into();
    assert!(!project.deleted);
    assert_eq!(project.name, "organizations/acme/projects/p");
}

#[test]
fn a_space_reads_its_protection_fail_secure() {
    let space: Space = wire::Space {
        name: "organizations/acme/spaces/s".to_string(),
        display_name: "S".to_string(),
        projects: vec!["organizations/acme/projects/p".to_string()],
        protection: 0,
        locked: true,
        delete_time: None,
    }
    .into();
    assert_eq!(space.protection, Protection::Sealed);
    assert!(space.locked);
    assert!(!space.deleted);
    assert_eq!(space.projects.len(), 1);
}

#[test]
fn a_budget_source_reads_unknown_values_as_estimates() {
    let base = wire::System {
        backend: "cpu".to_string(),
        device: "host".to_string(),
        budget_limit_bytes: 0,
        budget_used_bytes: 0,
        budget_source: 1,
        version: "0.1.0".to_string(),
    };
    let measured: System = base.clone().into();
    assert_eq!(measured.budget_source, BudgetSource::Measured);
    assert_eq!(measured.backend, "cpu");
    let configured: System = wire::System { budget_source: 3, ..base.clone() }.into();
    assert_eq!(configured.budget_source, BudgetSource::Configured);
    let unknown: System = wire::System { budget_source: 42, ..base.clone() }.into();
    assert_eq!(unknown.budget_source, BudgetSource::Estimated);
    let unspecified: System = wire::System { budget_source: 0, ..base }.into();
    assert_eq!(unspecified.budget_source, BudgetSource::Estimated);
}

#[test]
fn budget_sources_have_their_names() {
    assert_eq!(BudgetSource::Measured.as_str(), "measured");
    assert_eq!(BudgetSource::Estimated.as_str(), "estimated");
    assert_eq!(BudgetSource::Configured.as_str(), "configured");
}
