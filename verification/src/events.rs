use vstd::prelude::*;
use crate::error::Error;
use crate::identity::Identity;

verus! {

/// The operations that change a registry. Each one that succeeds is made
/// known by one notification.
#[derive(Clone, Copy, Debug, PartialEq, Eq, Structural)]
pub enum Operation {
    Init,
    RegisterInstitution,
    UpdateInstitution,
    VerifyInstitution,
    RegisterHospital,
    UpdateHospital,
    SetHospitalConfig,
    UpdateDepartments,
    UpdateLocations,
    UpdateEquipment,
    UpdatePolicies,
    UpdateAlerts,
    UpdateInsuranceProviders,
    UpdateBilling,
    UpdateEmergencyProtocols,
    RegisterPatient,
    UpdatePatient,
    RegisterDoctor,
    VerifyDoctor,
    EnrolInstitution,
    GrantAccess,
    RevokeAccess,
    AddMedicalRecord,
    RegisterInsurer,
    UpdateInsurer,
    UpdateContactDetails,
    UpdateCoveragePolicies,
    AddClaimsReviewer,
    RemoveClaimsReviewer,
}

impl Operation {
    /// The short tag under which the operation is made known.
    pub open spec fn tag_text(self) -> Seq<char> {
        match self {
            Operation::Init => "init"@,
            Operation::RegisterInstitution => "reg"@,
            Operation::UpdateInstitution => "upd"@,
            Operation::VerifyInstitution => "ver"@,
            Operation::RegisterHospital => "reg_hosp"@,
            Operation::UpdateHospital => "upd_hosp"@,
            Operation::SetHospitalConfig => "cfg_set"@,
            Operation::UpdateDepartments => "upd_dept"@,
            Operation::UpdateLocations => "upd_loc"@,
            Operation::UpdateEquipment => "upd_eq"@,
            Operation::UpdatePolicies => "upd_pol"@,
            Operation::UpdateAlerts => "upd_alrt"@,
            Operation::UpdateInsuranceProviders => "upd_ins"@,
            Operation::UpdateBilling => "upd_bill"@,
            Operation::UpdateEmergencyProtocols => "upd_emg"@,
            Operation::RegisterPatient => "reg_pat"@,
            Operation::UpdatePatient => "upd_pat"@,
            Operation::RegisterDoctor => "reg_doc"@,
            Operation::VerifyDoctor => "ver_doc"@,
            Operation::EnrolInstitution => "reg_inst"@,
            Operation::GrantAccess => "grant"@,
            Operation::RevokeAccess => "revoke"@,
            Operation::AddMedicalRecord => "add_rec"@,
            Operation::RegisterInsurer => "reg_insr"@,
            Operation::UpdateInsurer => "upd_insr"@,
            Operation::UpdateContactDetails => "upd_cont"@,
            Operation::UpdateCoveragePolicies => "upd_cov"@,
            Operation::AddClaimsReviewer => "add_rev"@,
            Operation::RemoveClaimsReviewer => "rem_rev"@,
        }
    }

    /// The short tag under which the operation is made known.
    pub fn tag(&self) -> (text: &'static str)
        ensures
            text@ == self.tag_text(),
    {
        match self {
            Operation::Init => "init",
            Operation::RegisterInstitution => "reg",
            Operation::UpdateInstitution => "upd",
            Operation::VerifyInstitution => "ver",
            Operation::RegisterHospital => "reg_hosp",
            Operation::UpdateHospital => "upd_hosp",
            Operation::SetHospitalConfig => "cfg_set",
            Operation::UpdateDepartments => "upd_dept",
            Operation::UpdateLocations => "upd_loc",
            Operation::UpdateEquipment => "upd_eq",
            Operation::UpdatePolicies => "upd_pol",
            Operation::UpdateAlerts => "upd_alrt",
            Operation::UpdateInsuranceProviders => "upd_ins",
            Operation::UpdateBilling => "upd_bill",
            Operation::UpdateEmergencyProtocols => "upd_emg",
            Operation::RegisterPatient => "reg_pat",
            Operation::UpdatePatient => "upd_pat",
            Operation::RegisterDoctor => "reg_doc",
            Operation::VerifyDoctor => "ver_doc",
            Operation::EnrolInstitution => "reg_inst",
            Operation::GrantAccess => "grant",
            Operation::RevokeAccess => "revoke",
            Operation::AddMedicalRecord => "add_rec",
            Operation::RegisterInsurer => "reg_insr",
            Operation::UpdateInsurer => "upd_insr",
            Operation::UpdateContactDetails => "upd_cont",
            Operation::UpdateCoveragePolicies => "upd_cov",
            Operation::AddClaimsReviewer => "add_rev",
            Operation::RemoveClaimsReviewer => "rem_rev",
        }
    }
}

/// What is handed to the event publisher when an operation has succeeded:
/// which operation it was, and on whose entry. A refused operation makes no
/// notification, so the outcome that a notification reports is success.
#[derive(Clone, Debug, PartialEq, Eq)]
pub struct Notification {
    pub operation: Operation,
    pub subject: Identity,
}

impl Notification {
    /// The outcome that the notification reports. A notification is made
    /// for a success only, so this is always the same word.
    pub fn outcome(&self) -> (text: &'static str)
        ensures
            text@ == "success"@,
    {
        "success"
    }
}

/// A notification as a value of the model.
pub struct Notice {
    pub operation: Operation,
    pub subject: Seq<char>,
}

impl View for Notification {
    type V = Notice;

    open spec fn view(&self) -> Notice {
        Notice { operation: self.operation, subject: self.subject@ }
    }
}

/// Whether a call that has moved a registry from `before` to `after` and has
/// answered `answer` did what `step` prescribes: on success the prescribed
/// state and the notification of `operation` on `subject`, on failure the
/// prescribed error and no change.
pub open spec fn carried_out<S>(
    before: S,
    after: S,
    step: Result<S, Error>,
    operation: Operation,
    subject: Seq<char>,
    answer: Result<Notification, Error>,
) -> bool {
    match step {
        Ok(next) => after == next && answer is Ok && answer->Ok_0@ == (Notice {
            operation,
            subject,
        }),
        Err(error) => after == before && answer == Err::<Notification, Error>(error),
    }
}

} // verus!
