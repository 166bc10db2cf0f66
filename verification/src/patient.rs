use vstd::prelude::*;
use crate::error::Error;
use crate::events::{carried_out, Notification, Operation};
use crate::authorization::{check_self, self_authorized};
use crate::identity::Identity;
use crate::model::each_view;
use crate::roster::{enumerates, Roster};
use crate::table::Table;

verus! {

/// The profile of a patient.
#[derive(Clone, Debug, PartialEq, Eq)]
pub struct PatientData {
    pub name: String,
    pub dob: u64,
    pub metadata: String,
}

/// A patient's profile as a value of the model.
pub struct PatientView {
    pub name: Seq<char>,
    pub dob: u64,
    pub metadata: Seq<char>,
}

impl View for PatientData {
    type V = PatientView;

    open spec fn view(&self) -> PatientView {
        PatientView { name: self.name@, dob: self.dob, metadata: self.metadata@ }
    }
}

/// The profile of a doctor.
#[derive(Clone, Debug, PartialEq, Eq)]
pub struct DoctorData {
    pub name: String,
    pub specialization: String,
    pub certificate_hash: Vec<u8>,
    pub verified: bool,
}

/// A doctor's profile as a value of the model.
pub struct DoctorView {
    pub name: Seq<char>,
    pub specialization: Seq<char>,
    pub certificate_hash: Seq<u8>,
    pub verified: bool,
}

impl View for DoctorData {
    type V = DoctorView;

    open spec fn view(&self) -> DoctorView {
        DoctorView {
            name: self.name@,
            specialization: self.specialization@,
            certificate_hash: self.certificate_hash@,
            verified: self.verified,
        }
    }
}

/// One entry of a patient's record log. It is never changed once written.
#[derive(Clone, Debug, PartialEq, Eq)]
pub struct MedicalRecord {
    pub doctor: Identity,
    pub record_hash: Vec<u8>,
    pub description: String,
    pub timestamp: u64,
}

/// A log entry as a value of the model.
pub struct RecordView {
    pub doctor: Seq<char>,
    pub record_hash: Seq<u8>,
    pub description: Seq<char>,
    pub timestamp: u64,
}

impl View for MedicalRecord {
    type V = RecordView;

    open spec fn view(&self) -> RecordView {
        RecordView {
            doctor: self.doctor@,
            record_hash: self.record_hash@,
            description: self.description@,
            timestamp: self.timestamp,
        }
    }
}

/// The model of the medical registry.
pub struct MedicalState {
    /// The profile of each registered patient.
    pub patients: Map<Seq<char>, PatientView>,
    /// The profile of each registered doctor.
    pub doctors: Map<Seq<char>, DoctorView>,
    /// The institutions that may verify doctors.
    pub institutions: Set<Seq<char>>,
    /// The grants in force, each a pair of the patient who gave it and the
    /// doctor who holds it.
    pub grants: Set<(Seq<char>, Seq<char>)>,
    /// The record log of each patient who has one, oldest entry first.
    pub records: Map<Seq<char>, Seq<RecordView>>,
}

impl MedicalState {
    /// The registry before anything has happened.
    pub open spec fn empty() -> MedicalState {
        MedicalState {
            patients: Map::empty(),
            doctors: Map::empty(),
            institutions: Set::empty(),
            grants: Set::empty(),
            records: Map::empty(),
        }
    }

    /// Whether `doctor` holds a grant of `patient`. It is false of a patient
    /// who has granted nothing and of one who is unknown alike.
    pub open spec fn is_authorized(self, patient: Seq<char>, doctor: Seq<char>) -> bool {
        self.grants.contains((patient, doctor))
    }

    /// The doctors who hold a grant of `patient`.
    pub open spec fn grantees(self, patient: Seq<char>) -> Set<Seq<char>> {
        Set::new(|doctor: Seq<char>| self.grants.contains((patient, doctor)))
    }

    /// The record log of `patient`, oldest entry first; empty where nothing
    /// was ever appended.
    pub open spec fn log(self, patient: Seq<char>) -> Seq<RecordView> {
        if self.records.contains_key(patient) {
            self.records[patient]
        } else {
            Seq::empty()
        }
    }

    /// Registers `wallet` as a patient.
    pub open spec fn register_patient(
        self,
        caller: Seq<char>,
        wallet: Seq<char>,
        name: Seq<char>,
        dob: u64,
        metadata: Seq<char>,
    ) -> Result<MedicalState, Error> {
        if self_authorized(caller, wallet) is Err {
            Err(Error::Unauthorized)
        } else if self.patients.contains_key(wallet) {
            Err(Error::AlreadyExists)
        } else {
            Ok(
                MedicalState {
                    patients: self.patients.insert(wallet, PatientView { name, dob, metadata }),
                    ..self
                },
            )
        }
    }

    /// Replaces the metadata of the patient `wallet`, and nothing else.
    pub open spec fn update_patient(
        self,
        caller: Seq<char>,
        wallet: Seq<char>,
        metadata: Seq<char>,
    ) -> Result<MedicalState, Error> {
        if self_authorized(caller, wallet) is Err {
            Err(Error::Unauthorized)
        } else if !self.patients.contains_key(wallet) {
            Err(Error::NotFound)
        } else {
            Ok(
                MedicalState {
                    patients: self.patients.insert(
                        wallet,
                        PatientView { metadata, ..self.patients[wallet] },
                    ),
                    ..self
                },
            )
        }
    }

    /// The profile of the patient `wallet`.
    pub open spec fn get_patient(self, wallet: Seq<char>) -> Result<PatientView, Error> {
        if self.patients.contains_key(wallet) {
            Ok(self.patients[wallet])
        } else {
            Err(Error::NotFound)
        }
    }

    /// Registers `wallet` as a doctor who is not yet verified.
    pub open spec fn register_doctor(
        self,
        caller: Seq<char>,
        wallet: Seq<char>,
        name: Seq<char>,
        specialization: Seq<char>,
        certificate_hash: Seq<u8>,
    ) -> Result<MedicalState, Error> {
        if self_authorized(caller, wallet) is Err {
            Err(Error::Unauthorized)
        } else if self.doctors.contains_key(wallet) {
            Err(Error::AlreadyExists)
        } else {
            Ok(
                MedicalState {
                    doctors: self.doctors.insert(
                        wallet,
                        DoctorView { name, specialization, certificate_hash, verified: false },
                    ),
                    ..self
                },
            )
        }
    }

    /// Marks the doctor `wallet` as verified, on behalf of
    /// `institution_wallet`, which has to be an enrolled institution.
    pub open spec fn verify_doctor(
        self,
        caller: Seq<char>,
        wallet: Seq<char>,
        institution_wallet: Seq<char>,
    ) -> Result<MedicalState, Error> {
        if self_authorized(caller, institution_wallet) is Err {
            Err(Error::Unauthorized)
        } else if !self.institutions.contains(institution_wallet) {
            Err(Error::Unauthorized)
        } else if !self.doctors.contains_key(wallet) {
            Err(Error::NotFound)
        } else {
            Ok(
                MedicalState {
                    doctors: self.doctors.insert(
                        wallet,
                        DoctorView { verified: true, ..self.doctors[wallet] },
                    ),
                    ..self
                },
            )
        }
    }

    /// The profile of the doctor `wallet`.
    pub open spec fn get_doctor(self, wallet: Seq<char>) -> Result<DoctorView, Error> {
        if self.doctors.contains_key(wallet) {
            Ok(self.doctors[wallet])
        } else {
            Err(Error::NotFound)
        }
    }

    /// Enrols `institution_wallet` as an institution that may verify doctors.
    pub open spec fn register_institution(
        self,
        caller: Seq<char>,
        institution_wallet: Seq<char>,
    ) -> Result<MedicalState, Error> {
        if self_authorized(caller, institution_wallet) is Err {
            Err(Error::Unauthorized)
        } else if self.institutions.contains(institution_wallet) {
            Err(Error::AlreadyExists)
        } else {
            Ok(MedicalState { institutions: self.institutions.insert(institution_wallet), ..self })
        }
    }

    /// Gives `doctor` a grant of `patient`.
    pub open spec fn grant_access(
        self,
        caller: Seq<char>,
        patient: Seq<char>,
        doctor: Seq<char>,
    ) -> Result<MedicalState, Error> {
        if self_authorized(caller, patient) is Err {
            Err(Error::Unauthorized)
        } else if self.is_authorized(patient, doctor) {
            Err(Error::AlreadyAuthorized)
        } else {
            Ok(MedicalState { grants: self.grants.insert((patient, doctor)), ..self })
        }
    }

    /// Takes from `doctor` the grant of `patient`.
    pub open spec fn revoke_access(
        self,
        caller: Seq<char>,
        patient: Seq<char>,
        doctor: Seq<char>,
    ) -> Result<MedicalState, Error> {
        if self_authorized(caller, patient) is Err {
            Err(Error::Unauthorized)
        } else if !self.is_authorized(patient, doctor) {
            Err(Error::NotFound)
        } else {
            Ok(MedicalState { grants: self.grants.remove((patient, doctor)), ..self })
        }
    }

    /// Appends an entry by `doctor` to the end of the log of `patient`. The
    /// doctor has to hold a grant of the patient at this moment.
    pub open spec fn add_medical_record(
        self,
        caller: Seq<char>,
        patient: Seq<char>,
        doctor: Seq<char>,
        record_hash: Seq<u8>,
        description: Seq<char>,
        timestamp: u64,
    ) -> Result<MedicalState, Error> {
        if self_authorized(caller, doctor) is Err {
            Err(Error::Unauthorized)
        } else if !self.is_authorized(patient, doctor) {
            Err(Error::Unauthorized)
        } else {
            Ok(self.restore_record(patient, RecordView { doctor, record_hash, description, timestamp }))
        }
    }

    /// Puts the profile `data` under the patient `wallet`, whatever was there.
    pub open spec fn restore_patient(self, wallet: Seq<char>, data: PatientView) -> MedicalState {
        MedicalState { patients: self.patients.insert(wallet, data), ..self }
    }

    /// Puts the profile `data` under the doctor `wallet`, whatever was there.
    pub open spec fn restore_doctor(self, wallet: Seq<char>, data: DoctorView) -> MedicalState {
        MedicalState { doctors: self.doctors.insert(wallet, data), ..self }
    }

    /// Puts `record` at the end of the log of `patient`.
    pub open spec fn restore_record(self, patient: Seq<char>, record: RecordView) -> MedicalState {
        MedicalState { records: self.records.insert(patient, self.log(patient).push(record)), ..self }
    }
}

/// The registry of patients and doctors, of the grants that patients give to
/// doctors, and of the record logs that those grants open.
pub struct MedicalRegistry {
    patients: Table<PatientData>,
    doctors: Table<DoctorData>,
    institutions: Roster,
    grants: Table<Roster>,
    records: Table<Vec<MedicalRecord>>,
}

/// The grants that the rosters of `grants` stand for.
spec fn grants_of(grants: Map<Seq<char>, Roster>) -> Set<(Seq<char>, Seq<char>)> {
    Set::new(
        |pair: (Seq<char>, Seq<char>)|
            grants.contains_key(pair.0) && grants[pair.0]@.contains(pair.1),
    )
}

impl View for MedicalRegistry {
    type V = MedicalState;

    closed spec fn view(&self) -> MedicalState {
        MedicalState {
            patients: self.patients@.map_values(|data: PatientData| data@),
            doctors: self.doctors@.map_values(|data: DoctorData| data@),
            institutions: self.institutions@,
            grants: grants_of(self.grants@),
            records: self.records@.map_values(|log: Vec<MedicalRecord>| each_view(log@)),
        }
    }
}

impl MedicalRegistry {
    /// The registry that holds nothing.
    pub fn new() -> (registry: MedicalRegistry)
        ensures
            registry@ == MedicalState::empty(),
    {
        let registry = MedicalRegistry {
            patients: Table::new(),
            doctors: Table::new(),
            institutions: Roster::new(),
            grants: Table::new(),
            records: Table::new(),
        };
        assert(registry@.patients =~= Map::empty());
        assert(registry@.doctors =~= Map::empty());
        assert(registry@.grants =~= Set::empty());
        assert(registry@.records =~= Map::empty());
        registry
    }

    /// Registers `wallet` as a patient. The caller has to be `wallet`, which
    /// must not be a patient yet.
    pub fn register_patient(
        &mut self,
        caller: &Identity,
        wallet: &Identity,
        name: String,
        dob: u64,
        metadata: String,
    ) -> (answer: Result<Notification, Error>)
        ensures
            carried_out(
                old(self)@,
                final(self)@,
                old(self)@.register_patient(caller@, wallet@, name@, dob, metadata@),
                Operation::RegisterPatient,
                wallet@,
                answer,
            ),
    {
        if check_self(caller, wallet).is_err() {
            return Err(Error::Unauthorized);
        }
        if self.patients.contains_key(wallet) {
            return Err(Error::AlreadyExists);
        }
        let data = PatientData { name, dob, metadata };
        self.patients.put(wallet.clone(), data);
        assert(self@.patients =~= old(self)@.patients.insert(wallet@, data@));
        Ok(Notification { operation: Operation::RegisterPatient, subject: wallet.clone() })
    }

    /// Replaces the metadata of the patient `wallet`. The caller has to be
    /// `wallet`, who has to be a patient.
    pub fn update_patient(
        &mut self,
        caller: &Identity,
        wallet: &Identity,
        metadata: String,
    ) -> (answer: Result<Notification, Error>)
        ensures
            carried_out(
                old(self)@,
                final(self)@,
                old(self)@.update_patient(caller@, wallet@, metadata@),
                Operation::UpdatePatient,
                wallet@,
                answer,
            ),
    {
        if check_self(caller, wallet).is_err() {
            return Err(Error::Unauthorized);
        }
        match self.patients.take(wallet) {
            None => {
                assert(self@.patients =~= old(self)@.patients);
                Err(Error::NotFound)
            },
            Some(mut data) => {
                data.metadata = metadata;
                self.patients.put(wallet.clone(), data);
                assert(self@.patients =~= old(self)@.patients.insert(wallet@, data@));
                Ok(Notification { operation: Operation::UpdatePatient, subject: wallet.clone() })
            },
        }
    }

    /// The profile of the patient `wallet`.
    pub fn get_patient(&self, wallet: &Identity) -> (answer: Result<&PatientData, Error>)
        ensures
            match answer {
                Ok(data) => self@.get_patient(wallet@) == Ok::<PatientView, Error>(data@),
                Err(error) => self@.get_patient(wallet@) == Err::<PatientView, Error>(error),
            },
    {
        match self.patients.get(wallet) {
            Some(data) => Ok(data),
            None => Err(Error::NotFound),
        }
    }

    /// Registers `wallet` as a doctor who is not yet verified. The caller has
    /// to be `wallet`, which must not be a doctor yet.
    pub fn register_doctor(
        &mut self,
        caller: &Identity,
        wallet: &Identity,
        name: String,
        specialization: String,
        certificate_hash: Vec<u8>,
    ) -> (answer: Result<Notification, Error>)
        ensures
            carried_out(
                old(self)@,
                final(self)@,
                old(self)@.register_doctor(
                    caller@,
                    wallet@,
                    name@,
                    specialization@,
                    certificate_hash@,
                ),
                Operation::RegisterDoctor,
                wallet@,
                answer,
            ),
    {
        if check_self(caller, wallet).is_err() {
            return Err(Error::Unauthorized);
        }
        if self.doctors.contains_key(wallet) {
            return Err(Error::AlreadyExists);
        }
        let data = DoctorData { name, specialization, certificate_hash, verified: false };
        self.doctors.put(wallet.clone(), data);
        assert(self@.doctors =~= old(self)@.doctors.insert(wallet@, data@));
        Ok(Notification { operation: Operation::RegisterDoctor, subject: wallet.clone() })
    }

    /// Marks the doctor `wallet` as verified; there is no way back. The
    /// caller has to be `institution_wallet`, which has to be enrolled, and
    /// `wallet` has to be a doctor.
    pub fn verify_doctor(
        &mut self,
        caller: &Identity,
        wallet: &Identity,
        institution_wallet: &Identity,
    ) -> (answer: Result<Notification, Error>)
        ensures
            carried_out(
                old(self)@,
                final(self)@,
                old(self)@.verify_doctor(caller@, wallet@, institution_wallet@),
                Operation::VerifyDoctor,
                wallet@,
                answer,
            ),
    {
        if check_self(caller, institution_wallet).is_err() {
            return Err(Error::Unauthorized);
        }
        if !self.institutions.contains(institution_wallet) {
            return Err(Error::Unauthorized);
        }
        match self.doctors.take(wallet) {
            None => {
                assert(self@.doctors =~= old(self)@.doctors);
                Err(Error::NotFound)
            },
            Some(mut data) => {
                data.verified = true;
                self.doctors.put(wallet.clone(), data);
                assert(self@.doctors =~= old(self)@.doctors.insert(wallet@, data@));
                Ok(Notification { operation: Operation::VerifyDoctor, subject: wallet.clone() })
            },
        }
    }

    /// The profile of the doctor `wallet`.
    pub fn get_doctor(&self, wallet: &Identity) -> (answer: Result<&DoctorData, Error>)
        ensures
            match answer {
                Ok(data) => self@.get_doctor(wallet@) == Ok::<DoctorView, Error>(data@),
                Err(error) => self@.get_doctor(wallet@) == Err::<DoctorView, Error>(error),
            },
    {
        match self.doctors.get(wallet) {
            Some(data) => Ok(data),
            None => Err(Error::NotFound),
        }
    }

    /// Enrols `institution_wallet` as an institution that may verify doctors.
    /// The caller has to be `institution_wallet`, which must not be enrolled
    /// yet.
    pub fn register_institution(
        &mut self,
        caller: &Identity,
        institution_wallet: &Identity,
    ) -> (answer: Result<Notification, Error>)
        ensures
            carried_out(
                old(self)@,
                final(self)@,
                old(self)@.register_institution(caller@, institution_wallet@),
                Operation::EnrolInstitution,
                institution_wallet@,
                answer,
            ),
    {
        if check_self(caller, institution_wallet).is_err() {
            return Err(Error::Unauthorized);
        }
        if self.institutions.contains(institution_wallet) {
            return Err(Error::AlreadyExists);
        }
        self.institutions.insert(institution_wallet.clone());
        Ok(
            Notification {
                operation: Operation::EnrolInstitution,
                subject: institution_wallet.clone(),
            },
        )
    }

    /// Gives `doctor` a grant of `patient`. The caller has to be `patient`,
    /// and `doctor` must not hold the grant yet: a second grant is refused,
    /// not passed over.
    pub fn grant_access(
        &mut self,
        caller: &Identity,
        patient: &Identity,
        doctor: &Identity,
    ) -> (answer: Result<Notification, Error>)
        ensures
            carried_out(
                old(self)@,
                final(self)@,
                old(self)@.grant_access(caller@, patient@, doctor@),
                Operation::GrantAccess,
                patient@,
                answer,
            ),
    {
        if check_self(caller, patient).is_err() {
            return Err(Error::Unauthorized);
        }
        if self.is_authorized(patient, doctor) {
            return Err(Error::AlreadyAuthorized);
        }
        let mut roster = match self.grants.take(patient) {
            Some(roster) => roster,
            None => Roster::new(),
        };
        roster.insert(doctor.clone());
        self.grants.put(patient.clone(), roster);
        assert(self@.grants =~= old(self)@.grants.insert((patient@, doctor@)));
        Ok(Notification { operation: Operation::GrantAccess, subject: patient.clone() })
    }

    /// Takes from `doctor` the grant of `patient`. The caller has to be
    /// `patient`, and `doctor` has to hold the grant. What the doctor has
    /// appended stays in the log.
    pub fn revoke_access(
        &mut self,
        caller: &Identity,
        patient: &Identity,
        doctor: &Identity,
    ) -> (answer: Result<Notification, Error>)
        ensures
            carried_out(
                old(self)@,
                final(self)@,
                old(self)@.revoke_access(caller@, patient@, doctor@),
                Operation::RevokeAccess,
                patient@,
                answer,
            ),
    {
        if check_self(caller, patient).is_err() {
            return Err(Error::Unauthorized);
        }
        if !self.is_authorized(patient, doctor) {
            return Err(Error::NotFound);
        }
        match self.grants.take(patient) {
            Some(mut roster) => {
                roster.remove(doctor);
                self.grants.put(patient.clone(), roster);
            },
            None => {},
        }
        assert(self@.grants =~= old(self)@.grants.remove((patient@, doctor@)));
        Ok(Notification { operation: Operation::RevokeAccess, subject: patient.clone() })
    }

    /// Whether `doctor` holds a grant of `patient`. It never fails: of a
    /// patient who has granted nothing, or who is unknown, the answer is no.
    pub fn is_authorized(&self, patient: &Identity, doctor: &Identity) -> (held: bool)
        ensures
            held == self@.is_authorized(patient@, doctor@),
    {
        match self.grants.get(patient) {
            Some(roster) => roster.contains(doctor),
            None => false,
        }
    }

    /// The doctors who hold a grant of `patient`, each once; none where the
    /// patient has granted nothing.
    pub fn get_authorized_doctors(&self, patient: &Identity) -> (list: &[Identity])
        ensures
            enumerates(list@, self@.grantees(patient@)),
    {
        match self.grants.get(patient) {
            Some(roster) => {
                let list = roster.members();
                assert(self@.grantees(patient@) =~= roster@);
                list
            },
            None => {
                assert(self@.grantees(patient@) =~= Set::empty());
                &[]
            },
        }
    }

    /// Appends an entry by `doctor` to the end of the log of `patient`, with
    /// the time `timestamp` that the clock gave. The caller has to be
    /// `doctor`, who has to hold a grant of `patient` at this moment.
    pub fn add_medical_record(
        &mut self,
        caller: &Identity,
        patient: &Identity,
        doctor: &Identity,
        record_hash: Vec<u8>,
        description: String,
        timestamp: u64,
    ) -> (answer: Result<Notification, Error>)
        ensures
            carried_out(
                old(self)@,
                final(self)@,
                old(self)@.add_medical_record(
                    caller@,
                    patient@,
                    doctor@,
                    record_hash@,
                    description@,
                    timestamp,
                ),
                Operation::AddMedicalRecord,
                patient@,
                answer,
            ),
    {
        if check_self(caller, doctor).is_err() {
            return Err(Error::Unauthorized);
        }
        if !self.is_authorized(patient, doctor) {
            return Err(Error::Unauthorized);
        }
        let record = MedicalRecord { doctor: doctor.clone(), record_hash, description, timestamp };
        self.restore_record(patient, record);
        Ok(Notification { operation: Operation::AddMedicalRecord, subject: patient.clone() })
    }

    /// The record log of `patient`, oldest entry first; empty where nothing
    /// was ever appended. Whoever asks is answered.
    pub fn get_medical_records(&self, patient: &Identity) -> (list: &[MedicalRecord])
        ensures
            each_view(list@) == self@.log(patient@),
    {
        match self.records.get(patient) {
            Some(log) => log.as_slice(),
            None => {
                assert(each_view(Seq::<MedicalRecord>::empty()) =~= Seq::empty());
                &[]
            },
        }
    }

    /// Puts back the profile of a patient as it was kept elsewhere. No check
    /// is made and no notification: this is how a registry is filled from a
    /// persistent store.
    pub fn restore_patient(&mut self, wallet: &Identity, data: PatientData)
        ensures
            final(self)@ == old(self)@.restore_patient(wallet@, data@),
    {
        self.patients.put(wallet.clone(), data);
        assert(self@.patients =~= old(self)@.patients.insert(wallet@, data@));
    }

    /// Puts back the profile of a doctor as it was kept elsewhere, without
    /// check or notification.
    pub fn restore_doctor(&mut self, wallet: &Identity, data: DoctorData)
        ensures
            final(self)@ == old(self)@.restore_doctor(wallet@, data@),
    {
        self.doctors.put(wallet.clone(), data);
        assert(self@.doctors =~= old(self)@.doctors.insert(wallet@, data@));
    }

    /// Puts back a log entry as it was kept elsewhere, at the end of the log
    /// of `patient`, without check or notification.
    pub fn restore_record(&mut self, patient: &Identity, record: MedicalRecord)
        ensures
            final(self)@ == old(self)@.restore_record(patient@, record@),
    {
        let mut log = match self.records.take(patient) {
            Some(log) => log,
            None => Vec::new(),
        };
        let ghost before = log@;
        log.push(record);
        assert(each_view(log@) =~= each_view(before).push(record@));
        assert(each_view(before) =~= old(self)@.log(patient@));
        self.records.put(patient.clone(), log);
        assert(self@.records =~= old(self)@.records.insert(
            patient@,
            old(self)@.log(patient@).push(record@),
        ));
    }
}

} // verus!
