//! Registries of healthcare entities, each kept under the identity that owns
//! it and changed only by that identity or by a role that it has named.
//!
//! There is one registry for institutions, one for hospitals and their
//! configuration, one for insurers and those who handle their claims, and one for
//! patients and doctors. In the last a patient grants doctors access, and a
//! grant is what lets a doctor append to the patient's record log, which only
//! grows.
//!
//! A registry is a value in memory. Whoever has proven the caller's identity
//! hands that identity in with each call; the time of a log entry is handed
//! in likewise. Each call that changes a registry answers with the
//! notification to publish, or with the reason for which it was refused, in
//! which case nothing has changed.
//!
//! Every registry has a model, a value made of maps, sets and sequences, and
//! every operation is specified as a function on that model. The modules
//! whose names end in `_laws` prove what holds of those functions over whole
//! histories of calls.

pub mod authorization;
pub mod error;
pub mod events;
pub mod hospital;
pub mod hospital_laws;
pub mod identity;
pub mod institution;
pub mod institution_laws;
pub mod insurer;
pub mod insurer_laws;
pub mod model;
pub mod patient;
pub mod patient_laws;
pub mod roster;
pub mod table;

pub use error::Error;
pub use events::{Notification, Operation};
pub use hospital::{
    AlertSetting, BillingConfig, Department, EmergencyProtocol, EquipmentResource, HospitalConfig,
    HospitalData, HospitalRegistry, InsuranceProviderConfig, Location, PolicyProcedure, Section,
};
pub use identity::Identity;
pub use institution::{HealthcareRegistry, InstitutionData};
pub use insurer::{InsurerData, InsurerField, InsurerRegistry};
pub use patient::{DoctorData, MedicalRecord, MedicalRegistry, PatientData};
pub use roster::Roster;
pub use table::Table;
