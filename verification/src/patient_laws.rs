use vstd::prelude::*;
use crate::error::Error;
use crate::patient::{DoctorView, MedicalState, PatientView, RecordView};

verus! {

/// One call of an operation of the medical registry, with its arguments.
pub enum MedicalCall {
    RegisterPatient {
        caller: Seq<char>,
        wallet: Seq<char>,
        name: Seq<char>,
        dob: u64,
        metadata: Seq<char>,
    },
    UpdatePatient { caller: Seq<char>, wallet: Seq<char>, metadata: Seq<char> },
    RegisterDoctor {
        caller: Seq<char>,
        wallet: Seq<char>,
        name: Seq<char>,
        specialization: Seq<char>,
        certificate_hash: Seq<u8>,
    },
    VerifyDoctor { caller: Seq<char>, wallet: Seq<char>, institution_wallet: Seq<char> },
    RegisterInstitution { caller: Seq<char>, institution_wallet: Seq<char> },
    GrantAccess { caller: Seq<char>, patient: Seq<char>, doctor: Seq<char> },
    RevokeAccess { caller: Seq<char>, patient: Seq<char>, doctor: Seq<char> },
    AddMedicalRecord {
        caller: Seq<char>,
        patient: Seq<char>,
        doctor: Seq<char>,
        record_hash: Seq<u8>,
        description: Seq<char>,
        timestamp: u64,
    },
}

impl MedicalCall {
    /// Whether the call asks to register `wallet` as a patient.
    pub open spec fn registers_patient(self, wallet: Seq<char>) -> bool {
        self matches MedicalCall::RegisterPatient { wallet: subject, .. } && subject == wallet
    }

    /// Whether the call asks to register `wallet` as a doctor.
    pub open spec fn registers_doctor(self, wallet: Seq<char>) -> bool {
        self matches MedicalCall::RegisterDoctor { wallet: subject, .. } && subject == wallet
    }

    /// Whether the call asks to give `doctor` a grant of `patient`.
    pub open spec fn grants(self, patient: Seq<char>, doctor: Seq<char>) -> bool {
        self matches MedicalCall::GrantAccess { patient: owner, doctor: grantee, .. } && owner
            == patient && grantee == doctor
    }

    /// The entry that the call asks to append to the log of `patient`, if it
    /// asks for that.
    pub open spec fn entry_for(self, patient: Seq<char>) -> Option<RecordView> {
        match self {
            MedicalCall::AddMedicalRecord {
                patient: owner,
                doctor,
                record_hash,
                description,
                timestamp,
                ..
            } => if owner == patient {
                Some(RecordView { doctor, record_hash, description, timestamp })
            } else {
                None
            },
            _ => None,
        }
    }
}

impl MedicalState {
    /// What the call `call` does to this state, or why it is refused.
    pub open spec fn apply(self, call: MedicalCall) -> Result<MedicalState, Error> {
        match call {
            MedicalCall::RegisterPatient { caller, wallet, name, dob, metadata } => {
                self.register_patient(caller, wallet, name, dob, metadata)
            },
            MedicalCall::UpdatePatient { caller, wallet, metadata } => {
                self.update_patient(caller, wallet, metadata)
            },
            MedicalCall::RegisterDoctor { caller, wallet, name, specialization, certificate_hash } => {
                self.register_doctor(caller, wallet, name, specialization, certificate_hash)
            },
            MedicalCall::VerifyDoctor { caller, wallet, institution_wallet } => {
                self.verify_doctor(caller, wallet, institution_wallet)
            },
            MedicalCall::RegisterInstitution { caller, institution_wallet } => {
                self.register_institution(caller, institution_wallet)
            },
            MedicalCall::GrantAccess { caller, patient, doctor } => {
                self.grant_access(caller, patient, doctor)
            },
            MedicalCall::RevokeAccess { caller, patient, doctor } => {
                self.revoke_access(caller, patient, doctor)
            },
            MedicalCall::AddMedicalRecord {
                caller,
                patient,
                doctor,
                record_hash,
                description,
                timestamp,
            } => self.add_medical_record(
                caller,
                patient,
                doctor,
                record_hash,
                description,
                timestamp,
            ),
        }
    }

    /// The state after the call `call`: the one it leads to, or this one
    /// where the call is refused.
    pub open spec fn after(self, call: MedicalCall) -> MedicalState {
        match self.apply(call) {
            Ok(next) => next,
            Err(_) => self,
        }
    }

    /// The state after the calls `calls`, made one after another.
    pub open spec fn run(self, calls: Seq<MedicalCall>) -> MedicalState
        decreases calls.len(),
    {
        if calls.len() == 0 {
            self
        } else {
            self.run(calls.drop_last()).after(calls.last())
        }
    }

    /// The entries that the calls `calls`, made one after another from this
    /// state, append to the log of `patient`: those of the calls that
    /// succeed, in the order of the calls.
    pub open spec fn appended(self, calls: Seq<MedicalCall>, patient: Seq<char>) -> Seq<RecordView>
        decreases calls.len(),
    {
        if calls.len() == 0 {
            Seq::empty()
        } else {
            let earlier = self.appended(calls.drop_last(), patient);
            match calls.last().entry_for(patient) {
                Some(entry) => if self.run(calls.drop_last()).apply(calls.last()) is Ok {
                    earlier.push(entry)
                } else {
                    earlier
                },
                None => earlier,
            }
        }
    }
}

/// Whether the times of `log` never go back from one entry to the next.
pub open spec fn times_ascend(log: Seq<RecordView>) -> bool {
    forall|i: int, j: int| 0 <= i <= j < log.len() ==> log[i].timestamp <= log[j].timestamp
}

/// Before anything has happened no patient and no doctor is found, nobody
/// holds a grant, and every log is empty.
pub proof fn nothing_in_the_empty_registry(patient: Seq<char>, doctor: Seq<char>)
    ensures
        MedicalState::empty().get_patient(patient) == Err::<PatientView, Error>(Error::NotFound),
        MedicalState::empty().get_doctor(doctor) == Err::<DoctorView, Error>(Error::NotFound),
        !MedicalState::empty().is_authorized(patient, doctor),
        MedicalState::empty().grantees(patient) == Set::<Seq<char>>::empty(),
        MedicalState::empty().log(patient) == Seq::<RecordView>::empty(),
{
    assert(MedicalState::empty().grantees(patient) =~= Set::<Seq<char>>::empty());
}

/// A patient registers once: after `wallet` has asked to be registered as a
/// patient, whether that succeeded or not, a second request of its own is
/// refused as `AlreadyExists`, whatever profile it brings.
pub proof fn patient_registers_once(
    state: MedicalState,
    wallet: Seq<char>,
    name: Seq<char>,
    dob: u64,
    metadata: Seq<char>,
    again: PatientView,
)
    ensures
        state.after(
            MedicalCall::RegisterPatient { caller: wallet, wallet, name, dob, metadata },
        ).register_patient(wallet, wallet, again.name, again.dob, again.metadata) == Err::<
            MedicalState,
            Error,
        >(Error::AlreadyExists),
{
}

/// A doctor registers once: after `wallet` has asked to be registered as a
/// doctor, whether that succeeded or not, a second request of its own is
/// refused as `AlreadyExists`, whatever profile it brings.
pub proof fn doctor_registers_once(
    state: MedicalState,
    wallet: Seq<char>,
    name: Seq<char>,
    specialization: Seq<char>,
    certificate_hash: Seq<u8>,
    again: DoctorView,
)
    ensures
        state.after(
            MedicalCall::RegisterDoctor {
                caller: wallet,
                wallet,
                name,
                specialization,
                certificate_hash,
            },
        ).register_doctor(
            wallet,
            wallet,
            again.name,
            again.specialization,
            again.certificate_hash,
        ) == Err::<MedicalState, Error>(Error::AlreadyExists),
{
}

/// An institution enrols once: after `institution_wallet` has asked to be
/// enrolled, a second request of its own is refused as `AlreadyExists`.
pub proof fn institution_enrols_once(state: MedicalState, institution_wallet: Seq<char>)
    ensures
        state.after(
            MedicalCall::RegisterInstitution { caller: institution_wallet, institution_wallet },
        ).register_institution(institution_wallet, institution_wallet) == Err::<
            MedicalState,
            Error,
        >(Error::AlreadyExists),
{
}

/// A patient who is not found stays so through every call that is not a
/// request to register that patient.
pub proof fn patient_not_found_before_registration(
    state: MedicalState,
    calls: Seq<MedicalCall>,
    wallet: Seq<char>,
)
    requires
        state.get_patient(wallet) is Err,
        forall|i: int| 0 <= i < calls.len() ==> !(#[trigger] calls[i]).registers_patient(wallet),
    ensures
        state.run(calls).get_patient(wallet) == Err::<PatientView, Error>(Error::NotFound),
    decreases calls.len(),
{
    if calls.len() > 0 {
        let earlier = calls.drop_last();
        assert forall|i: int| 0 <= i < earlier.len() implies !(#[trigger] earlier[i]).registers_patient(
            wallet,
        ) by {
            assert(earlier[i] == calls[i]);
        }
        patient_not_found_before_registration(state, earlier, wallet);
        assert(!calls[calls.len() - 1].registers_patient(wallet));
    }
}

/// A doctor who is not found stays so through every call that is not a
/// request to register that doctor.
pub proof fn doctor_not_found_before_registration(
    state: MedicalState,
    calls: Seq<MedicalCall>,
    wallet: Seq<char>,
)
    requires
        state.get_doctor(wallet) is Err,
        forall|i: int| 0 <= i < calls.len() ==> !(#[trigger] calls[i]).registers_doctor(wallet),
    ensures
        state.run(calls).get_doctor(wallet) == Err::<DoctorView, Error>(Error::NotFound),
    decreases calls.len(),
{
    if calls.len() > 0 {
        let earlier = calls.drop_last();
        assert forall|i: int| 0 <= i < earlier.len() implies !(#[trigger] earlier[i]).registers_doctor(
            wallet,
        ) by {
            assert(earlier[i] == calls[i]);
        }
        doctor_not_found_before_registration(state, earlier, wallet);
        assert(!calls[calls.len() - 1].registers_doctor(wallet));
    }
}

/// An institution that acts in person verifies a registered doctor exactly
/// when it is enrolled; otherwise the call is refused as `Unauthorized`.
/// After success the doctor reads as verified, and the rest of the profile
/// as it was.
pub proof fn only_enrolled_institutions_verify(
    state: MedicalState,
    wallet: Seq<char>,
    institution_wallet: Seq<char>,
)
    requires
        state.get_doctor(wallet) is Ok,
    ensures
        state.verify_doctor(institution_wallet, wallet, institution_wallet) is Ok
            <==> state.institutions.contains(institution_wallet),
        !state.institutions.contains(institution_wallet) ==> state.verify_doctor(
            institution_wallet,
            wallet,
            institution_wallet,
        ) == Err::<MedicalState, Error>(Error::Unauthorized),
        state.verify_doctor(institution_wallet, wallet, institution_wallet) matches Ok(next)
            ==> next.get_doctor(wallet) == Ok::<DoctorView, Error>(
            DoctorView { verified: true, ..state.get_doctor(wallet)->Ok_0 },
        ),
{
}

/// A doctor who is verified stays verified, whatever is called afterwards.
pub proof fn verification_is_one_way(state: MedicalState, calls: Seq<MedicalCall>, wallet: Seq<char>)
    requires
        state.get_doctor(wallet) is Ok,
        state.get_doctor(wallet)->Ok_0.verified,
    ensures
        state.run(calls).get_doctor(wallet) is Ok,
        state.run(calls).get_doctor(wallet)->Ok_0.verified,
    decreases calls.len(),
{
    if calls.len() > 0 {
        verification_is_one_way(state, calls.drop_last(), wallet);
    }
}

/// After the patient has asked to give `doctor` a grant, `doctor` is
/// authorized, whether the grant was new or was refused as a second one.
/// After the patient has then revoked it, which succeeds, `doctor` is
/// authorized no more, and of the other grants none has changed.
pub proof fn grant_then_revoke(state: MedicalState, patient: Seq<char>, doctor: Seq<char>)
    ensures
        ({
            let granted = state.after(MedicalCall::GrantAccess { caller: patient, patient, doctor });
            &&& granted.is_authorized(patient, doctor)
            &&& granted.revoke_access(patient, patient, doctor) is Ok
            &&& !granted.revoke_access(patient, patient, doctor)->Ok_0.is_authorized(
                patient,
                doctor,
            )
            &&& granted.revoke_access(patient, patient, doctor)->Ok_0.grants == state.grants.remove(
                (patient, doctor),
            )
        }),
{
    let granted = state.after(MedicalCall::GrantAccess { caller: patient, patient, doctor });
    assert(granted.grants.remove((patient, doctor)) =~= state.grants.remove((patient, doctor)));
}

/// A grant that is already held is refused as `AlreadyAuthorized`: a grant
/// is no plain insertion into a set.
pub proof fn second_grant_is_refused(state: MedicalState, patient: Seq<char>, doctor: Seq<char>)
    requires
        state.is_authorized(patient, doctor),
    ensures
        state.grant_access(patient, patient, doctor) == Err::<MedicalState, Error>(
            Error::AlreadyAuthorized,
        ),
{
}

/// To revoke a grant that is not held is refused as `NotFound`.
pub proof fn revoke_without_grant(state: MedicalState, patient: Seq<char>, doctor: Seq<char>)
    requires
        !state.is_authorized(patient, doctor),
    ensures
        state.revoke_access(patient, patient, doctor) == Err::<MedicalState, Error>(
            Error::NotFound,
        ),
{
}

/// Nobody becomes authorized but by a call that asks for that very grant.
pub proof fn no_grant_unasked(
    state: MedicalState,
    calls: Seq<MedicalCall>,
    patient: Seq<char>,
    doctor: Seq<char>,
)
    requires
        !state.is_authorized(patient, doctor),
        forall|i: int| 0 <= i < calls.len() ==> !(#[trigger] calls[i]).grants(patient, doctor),
    ensures
        !state.run(calls).is_authorized(patient, doctor),
    decreases calls.len(),
{
    if calls.len() > 0 {
        let earlier = calls.drop_last();
        assert forall|i: int| 0 <= i < earlier.len() implies !(#[trigger] earlier[i]).grants(
            patient,
            doctor,
        ) by {
            assert(earlier[i] == calls[i]);
        }
        no_grant_unasked(state, earlier, patient, doctor);
        assert(!calls[calls.len() - 1].grants(patient, doctor));
    }
}

/// A doctor who appends in person succeeds exactly when the doctor holds a
/// grant of the patient at that moment; otherwise the call is refused as
/// `Unauthorized`.
pub proof fn append_needs_grant(
    state: MedicalState,
    patient: Seq<char>,
    doctor: Seq<char>,
    record_hash: Seq<u8>,
    description: Seq<char>,
    timestamp: u64,
)
    ensures
        state.add_medical_record(doctor, patient, doctor, record_hash, description, timestamp)
            is Ok <==> state.is_authorized(patient, doctor),
        !state.is_authorized(patient, doctor) ==> state.add_medical_record(
            doctor,
            patient,
            doctor,
            record_hash,
            description,
            timestamp,
        ) == Err::<MedicalState, Error>(Error::Unauthorized),
{
}

/// No call takes an entry out of a log, changes one or moves one: the log
/// of before is the beginning of the log of after.
pub proof fn log_only_grows(state: MedicalState, calls: Seq<MedicalCall>, patient: Seq<char>)
    ensures
        state.log(patient).is_prefix_of(state.run(calls).log(patient)),
{
    log_is_what_was_appended(state, calls, patient);
}

/// After any calls the log of a patient is the log of before, followed by
/// the entries of the appends that succeeded, one each, in the order of the
/// calls.
pub proof fn log_is_what_was_appended(
    state: MedicalState,
    calls: Seq<MedicalCall>,
    patient: Seq<char>,
)
    ensures
        state.run(calls).log(patient) == state.log(patient) + state.appended(calls, patient),
    decreases calls.len(),
{
    if calls.len() == 0 {
        assert(state.log(patient) + Seq::<RecordView>::empty() =~= state.log(patient));
    } else {
        let earlier = calls.drop_last();
        let call = calls.last();
        let middle = state.run(earlier);
        log_is_what_was_appended(state, earlier, patient);
        match middle.apply(call) {
            Ok(next) => {
                match call.entry_for(patient) {
                    Some(entry) => {
                        assert(next.log(patient) == middle.log(patient).push(entry));
                        assert(state.log(patient) + state.appended(earlier, patient).push(entry)
                            =~= (state.log(patient) + state.appended(earlier, patient)).push(
                            entry,
                        ));
                    },
                    None => {
                        assert(next.log(patient) == middle.log(patient));
                    },
                }
            },
            Err(_) => {},
        }
    }
}

/// A grant opens the log and its revocation closes it again, for the time
/// to come only. A doctor without a grant appends nothing; once the patient
/// has granted access the doctor appends, and the log is the log of before
/// with the new entry at its end; once the patient has revoked the grant the
/// doctor appends nothing more, and the entry is still there.
pub proof fn grant_opens_the_log_and_revocation_closes_it(
    state: MedicalState,
    patient: Seq<char>,
    doctor: Seq<char>,
    entry: RecordView,
    later: RecordView,
)
    requires
        !state.is_authorized(patient, doctor),
        entry.doctor == doctor,
        later.doctor == doctor,
    ensures
        ({
            let append = MedicalCall::AddMedicalRecord {
                caller: doctor,
                patient,
                doctor,
                record_hash: entry.record_hash,
                description: entry.description,
                timestamp: entry.timestamp,
            };
            let again = MedicalCall::AddMedicalRecord {
                caller: doctor,
                patient,
                doctor,
                record_hash: later.record_hash,
                description: later.description,
                timestamp: later.timestamp,
            };
            let grant = MedicalCall::GrantAccess { caller: patient, patient, doctor };
            let revoke = MedicalCall::RevokeAccess { caller: patient, patient, doctor };
            let granted = state.after(grant);
            let written = granted.after(append);
            let revoked = written.after(revoke);
            &&& state.apply(append) == Err::<MedicalState, Error>(Error::Unauthorized)
            &&& state.apply(grant) is Ok
            &&& granted.apply(append) is Ok
            &&& written.log(patient) == state.log(patient).push(entry)
            &&& written.apply(revoke) is Ok
            &&& revoked.apply(again) == Err::<MedicalState, Error>(Error::Unauthorized)
            &&& revoked.after(again).log(patient) == state.log(patient).push(entry)
        }),
{
}

/// Where the clock never goes back, the times of a log never go back: an
/// append with a time that is not before that of the last entry keeps the
/// times of the log ascending.
pub proof fn append_keeps_times_ascending(
    state: MedicalState,
    caller: Seq<char>,
    patient: Seq<char>,
    doctor: Seq<char>,
    record_hash: Seq<u8>,
    description: Seq<char>,
    timestamp: u64,
)
    requires
        times_ascend(state.log(patient)),
        state.log(patient).len() > 0 ==> state.log(patient).last().timestamp <= timestamp,
        state.add_medical_record(caller, patient, doctor, record_hash, description, timestamp)
            is Ok,
    ensures
        times_ascend(
            state.add_medical_record(
                caller,
                patient,
                doctor,
                record_hash,
                description,
                timestamp,
            )->Ok_0.log(patient),
        ),
{
}

/// To revoke a grant changes no log: what the doctor appended while the
/// grant was held stays.
pub proof fn revocation_keeps_the_log(
    state: MedicalState,
    caller: Seq<char>,
    patient: Seq<char>,
    doctor: Seq<char>,
    owner: Seq<char>,
)
    ensures
        state.after(MedicalCall::RevokeAccess { caller, patient, doctor }).log(owner) == state.log(
            owner,
        ),
{
}

} // verus!
