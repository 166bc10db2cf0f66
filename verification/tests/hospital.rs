use healthcare_registry::{
    AlertSetting, BillingConfig, Department, EmergencyProtocol, EquipmentResource, Error,
    HospitalConfig, HospitalRegistry, Identity, InsuranceProviderConfig, Location, Notification,
    Operation, PolicyProcedure, Section,
};

fn identity(key: &str) -> Identity {
    Identity::new(key.to_string())
}

fn text(s: &str) -> String {
    s.to_string()
}

fn registered(wallet: &Identity) -> HospitalRegistry {
    let mut registry = HospitalRegistry::new();
    registry
        .register_hospital(
            wallet,
            wallet,
            text("Regional Medical Center"),
            text("789 Pine Rd"),
            text("Accredited, trauma level II"),
        )
        .unwrap();
    registry
}

fn one_department(name: &str, head: &str, contact: &str) -> Vec<Department> {
    vec![Department { name: text(name), head: text(head), contact: text(contact) }]
}

#[test]
fn test_register_hospital() {
    let mut registry = HospitalRegistry::new();
    let hospital_wallet = identity("hospital-1");

    registry
        .register_hospital(
            &hospital_wallet,
            &hospital_wallet,
            text("General Hospital"),
            text("123 Main St, New York, NY"),
            text("Services: ER, Surgery, Cardiology"),
        )
        .unwrap();

    let hospital = registry.get_hospital(&hospital_wallet).unwrap();

    assert_eq!(hospital.name, text("General Hospital"));
    assert_eq!(hospital.location, text("123 Main St, New York, NY"));
    assert_eq!(hospital.metadata, text("Services: ER, Surgery, Cardiology"));
}

#[test]
fn test_update_hospital() {
    let mut registry = HospitalRegistry::new();
    let hospital_wallet = identity("hospital-1");

    registry
        .register_hospital(
            &hospital_wallet,
            &hospital_wallet,
            text("City Hospital"),
            text("456 Oak Ave"),
            text("General Services"),
        )
        .unwrap();

    registry
        .update_hospital(
            &hospital_wallet,
            &hospital_wallet,
            text("Services: ER, ICU, Pediatrics, Oncology"),
        )
        .unwrap();

    let hospital = registry.get_hospital(&hospital_wallet).unwrap();

    assert_eq!(hospital.metadata, text("Services: ER, ICU, Pediatrics, Oncology"));
    assert_eq!(hospital.name, text("City Hospital"));
}

#[test]
fn test_duplicate_registration() {
    let mut registry = HospitalRegistry::new();
    let hospital_wallet = identity("hospital-1");

    registry
        .register_hospital(
            &hospital_wallet,
            &hospital_wallet,
            text("Test Hospital"),
            text("Test Location"),
            text("Test Metadata"),
        )
        .unwrap();

    let second = registry.register_hospital(
        &hospital_wallet,
        &hospital_wallet,
        text("Test Hospital"),
        text("Test Location"),
        text("Test Metadata"),
    );
    assert_eq!(second, Err(Error::AlreadyExists));
}

#[test]
fn test_get_nonexistent_hospital() {
    let registry = HospitalRegistry::new();
    let hospital_wallet = identity("hospital-1");

    assert_eq!(registry.get_hospital(&hospital_wallet), Err(Error::NotFound));
}

#[test]
fn test_update_nonexistent_hospital() {
    let mut registry = HospitalRegistry::new();
    let hospital_wallet = identity("hospital-1");

    let answer =
        registry.update_hospital(&hospital_wallet, &hospital_wallet, text("Updated Metadata"));
    assert_eq!(answer, Err(Error::NotFound));
}

#[test]
fn test_hospital_config_flow() {
    let hospital_wallet = identity("hospital-1");
    let mut registry = registered(&hospital_wallet);

    let departments = one_department("Emergency", "Dr. Smith", "er@rmc.org");

    let locations = vec![Location {
        name: text("Main Campus"),
        address: text("789 Pine Rd"),
        metadata: text("24/7"),
    }];

    let equipment = vec![EquipmentResource {
        name: text("MRI"),
        quantity: 2,
        status: text("operational"),
        metadata: text("Siemens Aera"),
    }];

    let policies = vec![PolicyProcedure {
        title: text("Infection Control"),
        version: text("v3"),
        details: text("Hand hygiene and PPE policy"),
    }];

    let channels = vec![text("sms"), text("email")];

    let alerts = vec![AlertSetting {
        alert_type: text("code_blue"),
        enabled: true,
        channels,
        escalation_contact: text("+1-555-0100"),
    }];

    let plan_codes = vec![text("HMO-101"), text("PPO-202")];

    let insurance_providers = vec![InsuranceProviderConfig {
        provider_name: text("Acme Health"),
        plan_codes,
        billing_contact: text("billing@acmehealth.com"),
        metadata: text("EDI enabled"),
    }];

    let billing = BillingConfig {
        currency: text("USD"),
        payment_terms: text("Net 30"),
        tax_id: text("TAX-001"),
    };

    let protocols = vec![EmergencyProtocol {
        protocol_name: text("Fire"),
        description: text("Evacuate wing A"),
        last_updated: 1700000000,
        contact: text("safety@rmc.org"),
    }];

    let config = HospitalConfig {
        departments: departments.clone(),
        locations: locations.clone(),
        equipment: equipment.clone(),
        policies: policies.clone(),
        alerts: alerts.clone(),
        insurance_providers: insurance_providers.clone(),
        billing: billing.clone(),
        emergency_protocols: protocols.clone(),
    };

    registry.set_hospital_config(&hospital_wallet, &hospital_wallet, config).unwrap();

    let stored = registry.get_hospital_config(&hospital_wallet).unwrap();
    assert_eq!(stored.departments, departments);
    assert_eq!(stored.locations, locations);
    assert_eq!(stored.equipment, equipment);
    assert_eq!(stored.policies, policies);
    assert_eq!(stored.alerts, alerts);
    assert_eq!(stored.insurance_providers, insurance_providers);
    assert_eq!(stored.billing, billing);
    assert_eq!(stored.emergency_protocols, protocols);

    let updated_departments = one_department("Cardiology", "Dr. Lee", "cardio@rmc.org");

    registry
        .update_departments(&hospital_wallet, &hospital_wallet, updated_departments.clone())
        .unwrap();
    let stored_after = registry.get_hospital_config(&hospital_wallet).unwrap();
    assert_eq!(stored_after.departments, updated_departments);
}

#[test]
fn new_hospital_has_the_empty_config() {
    let wallet = identity("hospital-1");
    let registry = registered(&wallet);

    let config = registry.get_hospital_config(&wallet).unwrap();
    assert_eq!(config, &HospitalRegistry::default_config());
    assert!(config.departments.is_empty());
    assert!(config.locations.is_empty());
    assert!(config.equipment.is_empty());
    assert!(config.policies.is_empty());
    assert!(config.alerts.is_empty());
    assert!(config.insurance_providers.is_empty());
    assert!(config.emergency_protocols.is_empty());
    assert_eq!(
        config.billing,
        BillingConfig { currency: text(""), payment_terms: text(""), tax_id: text("") }
    );
}

#[test]
fn config_is_not_found_without_the_hospital() {
    let wallet = identity("hospital-1");
    let mut registry = HospitalRegistry::new();

    assert_eq!(registry.get_hospital_config(&wallet), Err(Error::NotFound));
    assert_eq!(registry.assert_hospital_exists(&wallet), Err(Error::NotFound));
    assert_eq!(
        registry.set_hospital_config(&wallet, &wallet, HospitalRegistry::default_config()),
        Err(Error::NotFound)
    );
    assert_eq!(
        registry.update_departments(&wallet, &wallet, one_department("a", "b", "c")),
        Err(Error::NotFound)
    );
    assert_eq!(registry.get_hospital(&wallet), Err(Error::NotFound));

    let registry = registered(&wallet);
    assert_eq!(registry.assert_hospital_exists(&wallet), Ok(()));
}

#[test]
fn departments_are_replaced_not_merged() {
    let wallet = identity("hospital-1");
    let mut registry = registered(&wallet);

    let first = vec![
        Department { name: text("Emergency"), head: text("Dr. Smith"), contact: text("er") },
        Department { name: text("Surgery"), head: text("Dr. Jones"), contact: text("or") },
    ];
    registry.update_departments(&wallet, &wallet, first).unwrap();

    let second = one_department("Cardiology", "Dr. Lee", "cardio@rmc.org");
    registry.update_departments(&wallet, &wallet, second.clone()).unwrap();
    assert_eq!(registry.get_hospital_config(&wallet).unwrap().departments, second);

    registry.update_departments(&wallet, &wallet, Vec::new()).unwrap();
    assert!(registry.get_hospital_config(&wallet).unwrap().departments.is_empty());
}

#[test]
fn each_section_is_replaced_alone() {
    let wallet = identity("hospital-1");
    let mut registry = registered(&wallet);
    let mut expected = HospitalRegistry::default_config();

    let locations =
        vec![Location { name: text("Annex"), address: text("1 Side St"), metadata: text("") }];
    let note = registry.update_locations(&wallet, &wallet, locations.clone()).unwrap();
    assert_eq!(note.operation, Operation::UpdateLocations);
    expected.locations = locations;
    assert_eq!(registry.get_hospital_config(&wallet).unwrap(), &expected);

    let equipment = vec![EquipmentResource {
        name: text("CT"),
        quantity: 1,
        status: text("down"),
        metadata: text(""),
    }];
    let note = registry.update_equipment(&wallet, &wallet, equipment.clone()).unwrap();
    assert_eq!(note.operation, Operation::UpdateEquipment);
    expected.equipment = equipment;
    assert_eq!(registry.get_hospital_config(&wallet).unwrap(), &expected);

    let policies = vec![PolicyProcedure {
        title: text("Visiting"),
        version: text("v1"),
        details: text("10-18h"),
    }];
    let note = registry.update_policies(&wallet, &wallet, policies.clone()).unwrap();
    assert_eq!(note.operation, Operation::UpdatePolicies);
    expected.policies = policies;
    assert_eq!(registry.get_hospital_config(&wallet).unwrap(), &expected);

    let alerts = vec![AlertSetting {
        alert_type: text("code_red"),
        enabled: false,
        channels: vec![text("pager")],
        escalation_contact: text("ops"),
    }];
    let note = registry.update_alerts(&wallet, &wallet, alerts.clone()).unwrap();
    assert_eq!(note.operation, Operation::UpdateAlerts);
    expected.alerts = alerts;
    assert_eq!(registry.get_hospital_config(&wallet).unwrap(), &expected);

    let providers = vec![InsuranceProviderConfig {
        provider_name: text("Acme Health"),
        plan_codes: vec![text("HMO-101")],
        billing_contact: text("billing"),
        metadata: text(""),
    }];
    let note = registry.update_insurance_providers(&wallet, &wallet, providers.clone()).unwrap();
    assert_eq!(note.operation, Operation::UpdateInsuranceProviders);
    expected.insurance_providers = providers;
    assert_eq!(registry.get_hospital_config(&wallet).unwrap(), &expected);

    let billing =
        BillingConfig { currency: text("EUR"), payment_terms: text("Net 14"), tax_id: text("T") };
    let note = registry.update_billing(&wallet, &wallet, billing.clone()).unwrap();
    assert_eq!(note.operation, Operation::UpdateBilling);
    expected.billing = billing;
    assert_eq!(registry.get_hospital_config(&wallet).unwrap(), &expected);

    let protocols = vec![EmergencyProtocol {
        protocol_name: text("Flood"),
        description: text("Move to floor 2"),
        last_updated: 42,
        contact: text("safety"),
    }];
    let note = registry.update_emergency_protocols(&wallet, &wallet, protocols.clone()).unwrap();
    assert_eq!(note.operation, Operation::UpdateEmergencyProtocols);
    expected.emergency_protocols = protocols;
    assert_eq!(registry.get_hospital_config(&wallet).unwrap(), &expected);

    let departments = one_department("Emergency", "Dr. Smith", "er@rmc.org");
    let note = registry
        .replace_section(&wallet, &wallet, Section::Departments(departments.clone()))
        .unwrap();
    assert_eq!(note.operation, Operation::UpdateDepartments);
    expected.departments = departments;
    assert_eq!(registry.get_hospital_config(&wallet).unwrap(), &expected);

    let hospital = registry.get_hospital(&wallet).unwrap();
    assert_eq!(hospital.name, text("Regional Medical Center"));
    assert_eq!(hospital.metadata, text("Accredited, trauma level II"));
}

#[test]
fn a_stranger_changes_nothing_of_a_hospital() {
    let wallet = identity("hospital-1");
    let stranger = identity("hospital-2");
    let mut registry = registered(&wallet);

    assert_eq!(
        registry.update_hospital(&stranger, &wallet, text("taken over")),
        Err(Error::Unauthorized)
    );
    assert_eq!(
        registry.set_hospital_config(&stranger, &wallet, HospitalRegistry::default_config()),
        Err(Error::Unauthorized)
    );
    assert_eq!(
        registry.update_billing(
            &stranger,
            &wallet,
            BillingConfig { currency: text("X"), payment_terms: text("Y"), tax_id: text("Z") }
        ),
        Err(Error::Unauthorized)
    );
    assert_eq!(
        registry.register_hospital(&stranger, &identity("hospital-3"), text("a"), text("b"), text("c")),
        Err(Error::Unauthorized)
    );
    assert_eq!(registry.get_hospital(&identity("hospital-3")), Err(Error::NotFound));

    let hospital = registry.get_hospital(&wallet).unwrap();
    assert_eq!(hospital.metadata, text("Accredited, trauma level II"));
    assert_eq!(
        registry.get_hospital_config(&wallet).unwrap(),
        &HospitalRegistry::default_config()
    );
}

#[test]
fn authorization_is_asked_before_existence() {
    let mut registry = HospitalRegistry::new();
    let answer =
        registry.update_hospital(&identity("hospital-2"), &identity("hospital-1"), text("m"));
    assert_eq!(answer, Err(Error::Unauthorized));
}

#[test]
fn hospitals_do_not_touch_each_other() {
    let first = identity("hospital-1");
    let second = identity("hospital-2");
    let mut registry = registered(&first);
    registry.register_hospital(&second, &second, text("Second"), text("Elsewhere"), text("m2")).unwrap();

    registry.update_hospital(&second, &second, text("changed")).unwrap();
    registry.update_departments(&second, &second, one_department("a", "b", "c")).unwrap();

    assert_eq!(registry.get_hospital(&first).unwrap().metadata, text("Accredited, trauma level II"));
    assert!(registry.get_hospital_config(&first).unwrap().departments.is_empty());
    assert_eq!(registry.get_hospital(&second).unwrap().metadata, text("changed"));
    assert_eq!(registry.get_hospital(&second).unwrap().name, text("Second"));
    assert_eq!(registry.get_hospital(&second).unwrap().location, text("Elsewhere"));
}

#[test]
fn hospital_operations_are_made_known() {
    let wallet = identity("hospital-1");
    let mut registry = HospitalRegistry::new();

    let note = registry.register_hospital(&wallet, &wallet, text("n"), text("l"), text("m")).unwrap();
    assert_eq!(note, Notification { operation: Operation::RegisterHospital, subject: wallet.clone() });
    assert_eq!(note.operation.tag(), "reg_hosp");

    let note = registry.update_hospital(&wallet, &wallet, text("m2")).unwrap();
    assert_eq!(note, Notification { operation: Operation::UpdateHospital, subject: wallet.clone() });
    assert_eq!(note.operation.tag(), "upd_hosp");

    let note = registry
        .set_hospital_config(&wallet, &wallet, HospitalRegistry::default_config())
        .unwrap();
    assert_eq!(note, Notification { operation: Operation::SetHospitalConfig, subject: wallet.clone() });
    assert_eq!(note.operation.tag(), "cfg_set");

    let note = registry.update_departments(&wallet, &wallet, Vec::new()).unwrap();
    assert_eq!(note, Notification { operation: Operation::UpdateDepartments, subject: wallet.clone() });
    assert_eq!(note.operation.tag(), "upd_dept");
}

#[test]
fn a_restored_hospital_is_read_back() {
    let wallet = identity("hospital-1");
    let mut registry = HospitalRegistry::new();
    let data = healthcare_registry::HospitalData {
        name: text("Kept"),
        location: text("Vault"),
        metadata: text("old"),
    };
    let mut config = HospitalRegistry::default_config();
    config.departments = one_department("Archive", "Dr. Old", "a@b");

    registry.restore_hospital(&wallet, data.clone(), config.clone());
    assert_eq!(registry.get_hospital(&wallet).unwrap(), &data);
    assert_eq!(registry.get_hospital_config(&wallet).unwrap(), &config);
    assert_eq!(
        registry.register_hospital(&wallet, &wallet, text("a"), text("b"), text("c")),
        Err(Error::AlreadyExists)
    );

    registry.update_hospital(&wallet, &wallet, text("new")).unwrap();
    assert_eq!(registry.get_hospital(&wallet).unwrap().metadata, text("new"));
    assert_eq!(registry.get_hospital_config(&wallet).unwrap(), &config);
}
