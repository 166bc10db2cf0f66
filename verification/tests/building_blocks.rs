use healthcare_registry::authorization::{check_role, check_self};
use healthcare_registry::{Error, Identity, Notification, Operation, Roster, Table};

fn identity(key: &str) -> Identity {
    Identity::new(key.to_string())
}

#[test]
fn identities_are_equal_by_key() {
    let a = identity("GABC");
    let b = identity("GABC");
    let c = identity("GABD");
    assert_eq!(a, b);
    assert_ne!(a, c);
    assert_ne!(identity(""), identity(" "));
    assert_eq!(a.clone(), a);
    assert_eq!(a.as_str(), "GABC");
    assert_ne!(identity("GAB"), a);
}

#[test]
fn self_authorization_asks_for_the_subject() {
    let a = identity("a");
    let b = identity("b");
    assert_eq!(check_self(&a, &a), Ok(()));
    assert_eq!(check_self(&a, &identity("a")), Ok(()));
    assert_eq!(check_self(&a, &b), Err(Error::Unauthorized));
}

#[test]
fn role_authorization_asks_for_the_stored_principal() {
    let admin = identity("admin");
    let other = identity("other");
    assert_eq!(check_role(&admin, Some(&admin)), Ok(()));
    assert_eq!(check_role(&other, Some(&admin)), Err(Error::Unauthorized));
    assert_eq!(check_role(&admin, None), Err(Error::InvalidAdmin));
}

#[test]
fn a_table_holds_one_value_for_a_key() {
    let mut table: Table<u32> = Table::new();
    let a = identity("a");
    let b = identity("b");
    assert!(!table.contains_key(&a));
    assert_eq!(table.get(&a), None);
    assert_eq!(table.take(&a), None);

    table.put(a.clone(), 1);
    table.put(b.clone(), 2);
    assert!(table.contains_key(&a));
    assert_eq!(table.get(&a), Some(&1));
    assert_eq!(table.get(&b), Some(&2));

    table.put(a.clone(), 3);
    assert_eq!(table.get(&a), Some(&3));
    assert_eq!(table.get(&b), Some(&2));

    assert_eq!(table.take(&a), Some(3));
    assert_eq!(table.get(&a), None);
    assert_eq!(table.take(&a), None);
    assert_eq!(table.get(&b), Some(&2));
}

#[test]
fn a_roster_holds_a_member_once() {
    let mut roster = Roster::new();
    let a = identity("a");
    let b = identity("b");
    assert!(roster.members().is_empty());
    assert!(!roster.contains(&a));
    assert!(!roster.remove(&a));

    assert!(roster.insert(a.clone()));
    assert!(!roster.insert(a.clone()));
    assert!(roster.insert(b.clone()));
    assert!(roster.contains(&a));
    assert_eq!(roster.members().len(), 2);
    assert!(roster.members().contains(&a));
    assert!(roster.members().contains(&b));

    assert!(roster.remove(&a));
    assert!(!roster.remove(&a));
    assert!(!roster.contains(&a));
    assert_eq!(roster.members(), [b.clone()]);
}

#[test]
fn every_operation_has_a_tag_of_its_own() {
    let all = [
        Operation::Init,
        Operation::RegisterInstitution,
        Operation::UpdateInstitution,
        Operation::VerifyInstitution,
        Operation::RegisterHospital,
        Operation::UpdateHospital,
        Operation::SetHospitalConfig,
        Operation::UpdateDepartments,
        Operation::UpdateLocations,
        Operation::UpdateEquipment,
        Operation::UpdatePolicies,
        Operation::UpdateAlerts,
        Operation::UpdateInsuranceProviders,
        Operation::UpdateBilling,
        Operation::UpdateEmergencyProtocols,
        Operation::RegisterPatient,
        Operation::UpdatePatient,
        Operation::RegisterDoctor,
        Operation::VerifyDoctor,
        Operation::EnrolInstitution,
        Operation::GrantAccess,
        Operation::RevokeAccess,
        Operation::AddMedicalRecord,
        Operation::RegisterInsurer,
        Operation::UpdateInsurer,
        Operation::UpdateContactDetails,
        Operation::UpdateCoveragePolicies,
        Operation::AddClaimsReviewer,
        Operation::RemoveClaimsReviewer,
    ];
    let mut i = 0;
    while i < all.len() {
        let tag = all[i].tag();
        assert!(!tag.is_empty());
        assert!(tag.len() <= 9);
        let mut j = i + 1;
        while j < all.len() {
            assert_ne!(tag, all[j].tag());
            j += 1;
        }
        i += 1;
    }
    assert_eq!(Operation::UpdateLocations.tag(), "upd_loc");
    assert_eq!(Operation::UpdateEquipment.tag(), "upd_eq");
    assert_eq!(Operation::UpdatePolicies.tag(), "upd_pol");
    assert_eq!(Operation::UpdateAlerts.tag(), "upd_alrt");
    assert_eq!(Operation::UpdateInsuranceProviders.tag(), "upd_ins");
    assert_eq!(Operation::UpdateBilling.tag(), "upd_bill");
    assert_eq!(Operation::UpdateEmergencyProtocols.tag(), "upd_emg");
}

#[test]
fn a_notification_reports_success() {
    let note = Notification { operation: Operation::GrantAccess, subject: identity("owner") };
    assert_eq!(note.outcome(), "success");
    assert_eq!(note.operation.tag(), "grant");
    assert_eq!(note.subject, identity("owner"));
}
