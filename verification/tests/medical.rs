use healthcare_registry::{
    DoctorData, Error, Identity, MedicalRecord, MedicalRegistry, Notification, Operation,
    PatientData,
};

fn identity(key: &str) -> Identity {
    Identity::new(key.to_string())
}

fn text(s: &str) -> String {
    s.to_string()
}

fn hash(seed: u8) -> Vec<u8> {
    vec![seed; 32]
}

fn with_patient_and_doctor() -> (MedicalRegistry, Identity, Identity) {
    let mut registry = MedicalRegistry::new();
    let patient = identity("patient");
    let doctor = identity("doctor");
    registry.register_patient(&patient, &patient, text("Pat"), 19800101, text("ipfs://p")).unwrap();
    registry
        .register_doctor(&doctor, &doctor, text("Dr. Who"), text("Cardiology"), hash(7))
        .unwrap();
    (registry, patient, doctor)
}

#[test]
fn a_patient_is_read_back_as_registered() {
    let (registry, patient, _) = with_patient_and_doctor();
    assert_eq!(
        registry.get_patient(&patient).unwrap(),
        &PatientData { name: text("Pat"), dob: 19800101, metadata: text("ipfs://p") }
    );
}

#[test]
fn a_patient_registers_once() {
    let (mut registry, patient, _) = with_patient_and_doctor();
    assert_eq!(
        registry.register_patient(&patient, &patient, text("Other"), 1, text("x")),
        Err(Error::AlreadyExists)
    );
    assert_eq!(registry.get_patient(&patient).unwrap().name, text("Pat"));
}

#[test]
fn a_patient_is_not_found_before_registration() {
    let mut registry = MedicalRegistry::new();
    let patient = identity("patient");
    assert_eq!(registry.get_patient(&patient), Err(Error::NotFound));
    assert_eq!(registry.update_patient(&patient, &patient, text("m")), Err(Error::NotFound));
}

#[test]
fn update_patient_replaces_the_metadata_only() {
    let (mut registry, patient, _) = with_patient_and_doctor();
    let note = registry.update_patient(&patient, &patient, text("ipfs://new")).unwrap();
    assert_eq!(note, Notification { operation: Operation::UpdatePatient, subject: patient.clone() });
    assert_eq!(
        registry.get_patient(&patient).unwrap(),
        &PatientData { name: text("Pat"), dob: 19800101, metadata: text("ipfs://new") }
    );
}

#[test]
fn a_doctor_is_read_back_unverified() {
    let (registry, _, doctor) = with_patient_and_doctor();
    assert_eq!(
        registry.get_doctor(&doctor).unwrap(),
        &DoctorData {
            name: text("Dr. Who"),
            specialization: text("Cardiology"),
            certificate_hash: hash(7),
            verified: false,
        }
    );
}

#[test]
fn a_doctor_registers_once() {
    let (mut registry, _, doctor) = with_patient_and_doctor();
    assert_eq!(
        registry.register_doctor(&doctor, &doctor, text("Dr. No"), text("x"), hash(1)),
        Err(Error::AlreadyExists)
    );
    assert_eq!(registry.get_doctor(&identity("nobody")), Err(Error::NotFound));
}

#[test]
fn a_patient_and_a_doctor_may_share_an_identity() {
    let (mut registry, patient, _) = with_patient_and_doctor();
    registry.register_doctor(&patient, &patient, text("Dr. Pat"), text("GP"), hash(2)).unwrap();
    assert_eq!(registry.get_doctor(&patient).unwrap().name, text("Dr. Pat"));
    assert_eq!(registry.get_patient(&patient).unwrap().name, text("Pat"));
}

#[test]
fn an_enrolled_institution_verifies_a_doctor() {
    let (mut registry, _, doctor) = with_patient_and_doctor();
    let institution = identity("institution");
    let other = identity("other-institution");

    assert_eq!(
        registry.verify_doctor(&institution, &doctor, &institution),
        Err(Error::Unauthorized)
    );
    assert_eq!(registry.get_doctor(&doctor).unwrap().verified, false);

    let note = registry.register_institution(&institution, &institution).unwrap();
    assert_eq!(
        note,
        Notification { operation: Operation::EnrolInstitution, subject: institution.clone() }
    );

    assert_eq!(registry.verify_doctor(&other, &doctor, &other), Err(Error::Unauthorized));
    assert_eq!(registry.verify_doctor(&other, &doctor, &institution), Err(Error::Unauthorized));
    assert_eq!(registry.get_doctor(&doctor).unwrap().verified, false);

    let note = registry.verify_doctor(&institution, &doctor, &institution).unwrap();
    assert_eq!(note, Notification { operation: Operation::VerifyDoctor, subject: doctor.clone() });
    assert_eq!(note.operation.tag(), "ver_doc");
    assert_eq!(
        registry.get_doctor(&doctor).unwrap(),
        &DoctorData {
            name: text("Dr. Who"),
            specialization: text("Cardiology"),
            certificate_hash: hash(7),
            verified: true,
        }
    );
}

#[test]
fn verification_of_an_unknown_doctor_is_not_found() {
    let mut registry = MedicalRegistry::new();
    let institution = identity("institution");
    registry.register_institution(&institution, &institution).unwrap();
    assert_eq!(
        registry.verify_doctor(&institution, &identity("ghost"), &institution),
        Err(Error::NotFound)
    );
}

#[test]
fn an_institution_enrols_once() {
    let mut registry = MedicalRegistry::new();
    let institution = identity("institution");
    registry.register_institution(&institution, &institution).unwrap();
    assert_eq!(
        registry.register_institution(&institution, &institution),
        Err(Error::AlreadyExists)
    );
    assert_eq!(
        registry.register_institution(&identity("stranger"), &identity("second")),
        Err(Error::Unauthorized)
    );
}

#[test]
fn grant_then_revoke() {
    let (mut registry, patient, doctor) = with_patient_and_doctor();
    assert!(!registry.is_authorized(&patient, &doctor));

    let note = registry.grant_access(&patient, &patient, &doctor).unwrap();
    assert_eq!(note, Notification { operation: Operation::GrantAccess, subject: patient.clone() });
    assert_eq!(note.operation.tag(), "grant");
    assert!(registry.is_authorized(&patient, &doctor));
    assert!(!registry.is_authorized(&doctor, &patient));

    let note = registry.revoke_access(&patient, &patient, &doctor).unwrap();
    assert_eq!(note, Notification { operation: Operation::RevokeAccess, subject: patient.clone() });
    assert_eq!(note.operation.tag(), "revoke");
    assert!(!registry.is_authorized(&patient, &doctor));
}

#[test]
fn a_second_grant_is_refused() {
    let (mut registry, patient, doctor) = with_patient_and_doctor();
    registry.grant_access(&patient, &patient, &doctor).unwrap();
    assert_eq!(
        registry.grant_access(&patient, &patient, &doctor),
        Err(Error::AlreadyAuthorized)
    );
    assert_eq!(registry.get_authorized_doctors(&patient), [doctor.clone()]);
}

#[test]
fn revoke_without_grant_is_not_found() {
    let (mut registry, patient, doctor) = with_patient_and_doctor();
    assert_eq!(registry.revoke_access(&patient, &patient, &doctor), Err(Error::NotFound));
    registry.grant_access(&patient, &patient, &doctor).unwrap();
    registry.revoke_access(&patient, &patient, &doctor).unwrap();
    assert_eq!(registry.revoke_access(&patient, &patient, &doctor), Err(Error::NotFound));
}

#[test]
fn only_the_patient_grants_and_revokes() {
    let (mut registry, patient, doctor) = with_patient_and_doctor();
    assert_eq!(registry.grant_access(&doctor, &patient, &doctor), Err(Error::Unauthorized));
    assert!(!registry.is_authorized(&patient, &doctor));
    registry.grant_access(&patient, &patient, &doctor).unwrap();
    assert_eq!(registry.revoke_access(&doctor, &patient, &doctor), Err(Error::Unauthorized));
    assert!(registry.is_authorized(&patient, &doctor));
}

#[test]
fn an_unknown_owner_has_no_grantees() {
    let registry = MedicalRegistry::new();
    let nobody = identity("nobody");
    assert!(!registry.is_authorized(&nobody, &identity("doctor")));
    assert!(registry.get_authorized_doctors(&nobody).is_empty());
    assert!(registry.get_medical_records(&nobody).is_empty());
}

fn sorted(list: &[Identity]) -> Vec<String> {
    let mut keys: Vec<String> = list.iter().map(|who| who.as_str().to_string()).collect();
    keys.sort();
    keys
}

#[test]
fn grantees_are_listed_each_once() {
    let (mut registry, patient, doctor) = with_patient_and_doctor();
    let second = identity("doctor-2");
    let third = identity("doctor-3");
    assert!(registry.get_authorized_doctors(&patient).is_empty());

    registry.grant_access(&patient, &patient, &doctor).unwrap();
    registry.grant_access(&patient, &patient, &second).unwrap();
    registry.grant_access(&patient, &patient, &third).unwrap();
    assert_eq!(
        sorted(registry.get_authorized_doctors(&patient)),
        ["doctor", "doctor-2", "doctor-3"]
    );

    registry.revoke_access(&patient, &patient, &second).unwrap();
    assert_eq!(sorted(registry.get_authorized_doctors(&patient)), ["doctor", "doctor-3"]);

    registry.revoke_access(&patient, &patient, &doctor).unwrap();
    registry.revoke_access(&patient, &patient, &third).unwrap();
    assert!(registry.get_authorized_doctors(&patient).is_empty());

    registry.grant_access(&patient, &patient, &second).unwrap();
    assert_eq!(registry.get_authorized_doctors(&patient), [second.clone()]);
}

#[test]
fn grants_of_one_patient_are_not_those_of_another() {
    let (mut registry, patient, doctor) = with_patient_and_doctor();
    let other = identity("patient-2");
    registry.grant_access(&patient, &patient, &doctor).unwrap();
    assert!(!registry.is_authorized(&other, &doctor));
    assert_eq!(
        registry.add_medical_record(&doctor, &other, &doctor, hash(1), text("note"), 1),
        Err(Error::Unauthorized)
    );
    assert!(registry.get_medical_records(&other).is_empty());
}

#[test]
fn append_needs_a_grant_at_the_time_of_the_call() {
    let (mut registry, patient, doctor) = with_patient_and_doctor();

    assert_eq!(
        registry.add_medical_record(&doctor, &patient, &doctor, hash(1), text("note"), 100),
        Err(Error::Unauthorized)
    );
    assert!(registry.get_medical_records(&patient).is_empty());

    assert!(registry.grant_access(&patient, &patient, &doctor).is_ok());

    let note = registry
        .add_medical_record(&doctor, &patient, &doctor, hash(1), text("note"), 100)
        .unwrap();
    assert_eq!(
        note,
        Notification { operation: Operation::AddMedicalRecord, subject: patient.clone() }
    );
    assert_eq!(note.operation.tag(), "add_rec");
    let records = registry.get_medical_records(&patient);
    assert_eq!(records.len(), 1);
    assert_eq!(records[0].doctor, doctor);

    assert!(registry.revoke_access(&patient, &patient, &doctor).is_ok());

    assert_eq!(
        registry.add_medical_record(&doctor, &patient, &doctor, hash(2), text("later"), 200),
        Err(Error::Unauthorized)
    );
    assert_eq!(
        registry.get_medical_records(&patient),
        [MedicalRecord {
            doctor: doctor.clone(),
            record_hash: hash(1),
            description: text("note"),
            timestamp: 100,
        }]
    );
}

#[test]
fn the_author_has_to_be_the_caller() {
    let (mut registry, patient, doctor) = with_patient_and_doctor();
    registry.grant_access(&patient, &patient, &doctor).unwrap();
    assert_eq!(
        registry.add_medical_record(&patient, &patient, &doctor, hash(1), text("forged"), 1),
        Err(Error::Unauthorized)
    );
    assert!(registry.get_medical_records(&patient).is_empty());
}

#[test]
fn records_are_listed_in_the_order_of_the_appends() {
    let (mut registry, patient, doctor) = with_patient_and_doctor();
    let second = identity("doctor-2");
    registry.grant_access(&patient, &patient, &doctor).unwrap();
    registry.grant_access(&patient, &patient, &second).unwrap();

    registry.add_medical_record(&doctor, &patient, &doctor, hash(1), text("first"), 10).unwrap();
    registry.add_medical_record(&second, &patient, &second, hash(2), text("second"), 10).unwrap();
    registry.add_medical_record(&doctor, &patient, &doctor, hash(3), text("third"), 30).unwrap();

    let expected = [
        MedicalRecord {
            doctor: doctor.clone(),
            record_hash: hash(1),
            description: text("first"),
            timestamp: 10,
        },
        MedicalRecord {
            doctor: second.clone(),
            record_hash: hash(2),
            description: text("second"),
            timestamp: 10,
        },
        MedicalRecord {
            doctor: doctor.clone(),
            record_hash: hash(3),
            description: text("third"),
            timestamp: 30,
        },
    ];
    assert_eq!(registry.get_medical_records(&patient), expected);

    registry.update_patient(&patient, &patient, text("changed")).unwrap();
    registry.revoke_access(&patient, &patient, &second).unwrap();
    let institution = identity("institution");
    registry.register_institution(&institution, &institution).unwrap();
    registry.verify_doctor(&institution, &doctor, &institution).unwrap();
    assert_eq!(registry.get_medical_records(&patient), expected);
}

#[test]
fn many_appends_give_as_many_entries() {
    let (mut registry, patient, doctor) = with_patient_and_doctor();
    registry.grant_access(&patient, &patient, &doctor).unwrap();
    let mut time: u64 = 0;
    while time < 50 {
        registry
            .add_medical_record(&doctor, &patient, &doctor, vec![time as u8], text("entry"), time)
            .unwrap();
        time += 1;
    }
    let records = registry.get_medical_records(&patient);
    assert_eq!(records.len(), 50);
    let mut at = 0;
    while at < 50 {
        assert_eq!(records[at].timestamp, at as u64);
        assert_eq!(records[at].record_hash, vec![at as u8]);
        at += 1;
    }
}

#[test]
fn a_grant_does_not_need_a_registered_patient() {
    let mut registry = MedicalRegistry::new();
    let owner = identity("owner");
    let doctor = identity("doctor");
    registry.grant_access(&owner, &owner, &doctor).unwrap();
    assert!(registry.is_authorized(&owner, &doctor));
    registry.add_medical_record(&doctor, &owner, &doctor, Vec::new(), text(""), 0).unwrap();
    assert_eq!(registry.get_medical_records(&owner).len(), 1);
    assert_eq!(registry.get_patient(&owner), Err(Error::NotFound));
}

#[test]
fn a_stranger_changes_nothing_of_a_patient() {
    let (mut registry, patient, doctor) = with_patient_and_doctor();
    assert_eq!(
        registry.update_patient(&doctor, &patient, text("taken over")),
        Err(Error::Unauthorized)
    );
    assert_eq!(
        registry.register_patient(&doctor, &identity("patient-2"), text("a"), 1, text("b")),
        Err(Error::Unauthorized)
    );
    assert_eq!(
        registry.register_doctor(&patient, &identity("doctor-2"), text("a"), text("b"), hash(0)),
        Err(Error::Unauthorized)
    );
    assert_eq!(registry.get_patient(&patient).unwrap().metadata, text("ipfs://p"));
    assert_eq!(registry.get_patient(&identity("patient-2")), Err(Error::NotFound));
    assert_eq!(registry.get_doctor(&identity("doctor-2")), Err(Error::NotFound));
}

#[test]
fn registrations_are_made_known() {
    let mut registry = MedicalRegistry::new();
    let patient = identity("patient");
    let doctor = identity("doctor");
    let note = registry.register_patient(&patient, &patient, text("Pat"), 1, text("m")).unwrap();
    assert_eq!(note, Notification { operation: Operation::RegisterPatient, subject: patient.clone() });
    assert_eq!(note.operation.tag(), "reg_pat");
    let note = registry.register_doctor(&doctor, &doctor, text("D"), text("s"), hash(0)).unwrap();
    assert_eq!(note, Notification { operation: Operation::RegisterDoctor, subject: doctor.clone() });
    assert_eq!(note.operation.tag(), "reg_doc");
    assert_eq!(Operation::UpdatePatient.tag(), "upd_pat");
    assert_eq!(Operation::EnrolInstitution.tag(), "reg_inst");
}

#[test]
fn restored_entries_are_read_back() {
    let mut registry = MedicalRegistry::new();
    let patient = identity("patient");
    let doctor = identity("doctor");
    let profile = PatientData { name: text("Pat"), dob: 7, metadata: text("m") };
    let licence = DoctorData {
        name: text("D"),
        specialization: text("s"),
        certificate_hash: hash(9),
        verified: true,
    };
    let entry = MedicalRecord {
        doctor: doctor.clone(),
        record_hash: hash(3),
        description: text("kept"),
        timestamp: 99,
    };
    registry.restore_patient(&patient, profile.clone());
    registry.restore_doctor(&doctor, licence.clone());
    registry.restore_record(&patient, entry.clone());
    registry.restore_record(&patient, entry.clone());

    assert_eq!(registry.get_patient(&patient).unwrap(), &profile);
    assert_eq!(registry.get_doctor(&doctor).unwrap(), &licence);
    assert_eq!(registry.get_medical_records(&patient), [entry.clone(), entry.clone()]);
    assert!(!registry.is_authorized(&patient, &doctor));
}
