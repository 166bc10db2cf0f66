use vstd::prelude::*;
use crate::error::Error;
use crate::events::{carried_out, Notification, Operation};
use crate::authorization::{check_role, check_self, role_authorized, self_authorized};
use crate::identity::Identity;
use crate::table::Table;

verus! {

/// The profile of an institution.
#[derive(Clone, Debug, PartialEq, Eq)]
pub struct InstitutionData {
    pub name: String,
    pub license_id: String,
    pub metadata: String,
    pub is_verified: bool,
}

/// An institution's profile as a value of the model.
pub struct InstitutionView {
    pub name: Seq<char>,
    pub license_id: Seq<char>,
    pub metadata: Seq<char>,
    pub is_verified: bool,
}

impl View for InstitutionData {
    type V = InstitutionView;

    open spec fn view(&self) -> InstitutionView {
        InstitutionView {
            name: self.name@,
            license_id: self.license_id@,
            metadata: self.metadata@,
            is_verified: self.is_verified,
        }
    }
}

/// The model of the institution registry: the administrative principal, if
/// one has been set, and the profile of each registered institution.
pub struct HealthcareState {
    pub admin: Option<Seq<char>>,
    pub institutions: Map<Seq<char>, InstitutionView>,
}

impl HealthcareState {
    /// The registry before anything has happened.
    pub open spec fn empty() -> HealthcareState {
        HealthcareState { admin: None, institutions: Map::empty() }
    }

    /// Names `admin` the administrative principal. This is done once: where
    /// a principal is stored, whoever it is, the call is refused.
    pub open spec fn init(self, admin: Seq<char>) -> Result<HealthcareState, Error> {
        if self.admin is Some {
            Err(Error::AlreadyExists)
        } else {
            Ok(HealthcareState { admin: Some(admin), ..self })
        }
    }

    /// Registers `wallet` as an institution that is not yet verified.
    pub open spec fn register_institution(
        self,
        caller: Seq<char>,
        wallet: Seq<char>,
        name: Seq<char>,
        license_id: Seq<char>,
        metadata: Seq<char>,
    ) -> Result<HealthcareState, Error> {
        if self_authorized(caller, wallet) is Err {
            Err(Error::Unauthorized)
        } else if self.institutions.contains_key(wallet) {
            Err(Error::AlreadyExists)
        } else {
            Ok(
                HealthcareState {
                    institutions: self.institutions.insert(
                        wallet,
                        InstitutionView { name, license_id, metadata, is_verified: false },
                    ),
                    ..self
                },
            )
        }
    }

    /// The profile registered for `wallet`.
    pub open spec fn get_institution(self, wallet: Seq<char>) -> Result<InstitutionView, Error> {
        if self.institutions.contains_key(wallet) {
            Ok(self.institutions[wallet])
        } else {
            Err(Error::NotFound)
        }
    }

    /// Replaces the metadata of `wallet`, and nothing else of its profile.
    pub open spec fn update_institution(
        self,
        caller: Seq<char>,
        wallet: Seq<char>,
        metadata: Seq<char>,
    ) -> Result<HealthcareState, Error> {
        if self_authorized(caller, wallet) is Err {
            Err(Error::Unauthorized)
        } else if !self.institutions.contains_key(wallet) {
            Err(Error::NotFound)
        } else {
            Ok(
                HealthcareState {
                    institutions: self.institutions.insert(
                        wallet,
                        InstitutionView { metadata, ..self.institutions[wallet] },
                    ),
                    ..self
                },
            )
        }
    }

    /// Marks `wallet` as verified, on behalf of `verifier`, who has to be the
    /// administrative principal.
    pub open spec fn verify_institution(
        self,
        caller: Seq<char>,
        verifier: Seq<char>,
        wallet: Seq<char>,
    ) -> Result<HealthcareState, Error> {
        if self_authorized(caller, verifier) is Err {
            Err(Error::Unauthorized)
        } else if role_authorized(verifier, self.admin) is Err {
            Err(role_authorized(verifier, self.admin)->Err_0)
        } else if !self.institutions.contains_key(wallet) {
            Err(Error::NotFound)
        } else {
            Ok(
                HealthcareState {
                    institutions: self.institutions.insert(
                        wallet,
                        InstitutionView { is_verified: true, ..self.institutions[wallet] },
                    ),
                    ..self
                },
            )
        }
    }

    /// Puts the profile `data` under `wallet`, whatever was there.
    pub open spec fn restore_institution(
        self,
        wallet: Seq<char>,
        data: InstitutionView,
    ) -> HealthcareState {
        HealthcareState { institutions: self.institutions.insert(wallet, data), ..self }
    }
}

/// The registry of institutions, which an administrative principal verifies.
pub struct HealthcareRegistry {
    admin: Option<Identity>,
    institutions: Table<InstitutionData>,
}

impl View for HealthcareRegistry {
    type V = HealthcareState;

    closed spec fn view(&self) -> HealthcareState {
        HealthcareState {
            admin: match self.admin {
                Some(admin) => Some(admin@),
                None => None,
            },
            institutions: self.institutions@.map_values(|data: InstitutionData| data@),
        }
    }
}

impl HealthcareRegistry {
    /// The registry with no administrative principal and no institution.
    pub fn new() -> (registry: HealthcareRegistry)
        ensures
            registry@ == HealthcareState::empty(),
    {
        let registry = HealthcareRegistry { admin: None, institutions: Table::new() };
        assert(registry@.institutions =~= Map::empty());
        registry
    }

    /// Names `admin` the administrative principal, who alone may verify
    /// institutions. The principal is named once and stays: where one is
    /// stored already the call is refused as `AlreadyExists`, whether `admin`
    /// is that principal or another, and the stored one is kept.
    pub fn init(&mut self, admin: Identity) -> (answer: Result<Notification, Error>)
        ensures
            carried_out(
                old(self)@,
                final(self)@,
                old(self)@.init(admin@),
                Operation::Init,
                admin@,
                answer,
            ),
    {
        if self.admin.is_some() {
            return Err(Error::AlreadyExists);
        }
        let subject = admin.clone();
        self.admin = Some(admin);
        Ok(Notification { operation: Operation::Init, subject })
    }

    /// Registers `wallet` as an institution that is not yet verified. The
    /// caller has to be `wallet`, which must not be registered yet.
    pub fn register_institution(
        &mut self,
        caller: &Identity,
        wallet: &Identity,
        name: String,
        license_id: String,
        metadata: String,
    ) -> (answer: Result<Notification, Error>)
        ensures
            carried_out(
                old(self)@,
                final(self)@,
                old(self)@.register_institution(
                    caller@,
                    wallet@,
                    name@,
                    license_id@,
                    metadata@,
                ),
                Operation::RegisterInstitution,
                wallet@,
                answer,
            ),
    {
        if check_self(caller, wallet).is_err() {
            return Err(Error::Unauthorized);
        }
        if self.institutions.contains_key(wallet) {
            return Err(Error::AlreadyExists);
        }
        let subject = wallet.clone();
        let data = InstitutionData { name, license_id, metadata, is_verified: false };
        self.institutions.put(wallet.clone(), data);
        assert(self@.institutions =~= old(self)@.institutions.insert(wallet@, data@));
        Ok(Notification { operation: Operation::RegisterInstitution, subject })
    }

    /// The profile registered for `wallet`.
    pub fn get_institution(&self, wallet: &Identity) -> (answer: Result<&InstitutionData, Error>)
        ensures
            match answer {
                Ok(data) => self@.get_institution(wallet@) == Ok::<InstitutionView, Error>(data@),
                Err(error) => self@.get_institution(wallet@) == Err::<InstitutionView, Error>(
                    error,
                ),
            },
    {
        match self.institutions.get(wallet) {
            Some(data) => Ok(data),
            None => Err(Error::NotFound),
        }
    }

    /// Replaces the metadata of `wallet`. The caller has to be `wallet`, which
    /// has to be registered.
    pub fn update_institution(
        &mut self,
        caller: &Identity,
        wallet: &Identity,
        metadata: String,
    ) -> (answer: Result<Notification, Error>)
        ensures
            carried_out(
                old(self)@,
                final(self)@,
                old(self)@.update_institution(caller@, wallet@, metadata@),
                Operation::UpdateInstitution,
                wallet@,
                answer,
            ),
    {
        if check_self(caller, wallet).is_err() {
            return Err(Error::Unauthorized);
        }
        match self.institutions.take(wallet) {
            None => {
                assert(self@.institutions =~= old(self)@.institutions);
                Err(Error::NotFound)
            },
            Some(mut data) => {
                data.metadata = metadata;
                self.institutions.put(wallet.clone(), data);
                assert(self@.institutions =~= old(self)@.institutions.insert(wallet@, data@));
                Ok(
                    Notification {
                        operation: Operation::UpdateInstitution,
                        subject: wallet.clone(),
                    },
                )
            },
        }
    }

    /// Marks `wallet` as verified; there is no way back. The caller has to be
    /// `verifier`, who has to be the administrative principal, and `wallet`
    /// has to be registered.
    pub fn verify_institution(
        &mut self,
        caller: &Identity,
        verifier: &Identity,
        wallet: &Identity,
    ) -> (answer: Result<Notification, Error>)
        ensures
            carried_out(
                old(self)@,
                final(self)@,
                old(self)@.verify_institution(caller@, verifier@, wallet@),
                Operation::VerifyInstitution,
                wallet@,
                answer,
            ),
    {
        if check_self(caller, verifier).is_err() {
            return Err(Error::Unauthorized);
        }
        match check_role(verifier, self.admin.as_ref()) {
            Err(error) => {
                return Err(error);
            },
            Ok(_) => {},
        }
        match self.institutions.take(wallet) {
            None => {
                assert(self@.institutions =~= old(self)@.institutions);
                Err(Error::NotFound)
            },
            Some(mut data) => {
                data.is_verified = true;
                self.institutions.put(wallet.clone(), data);
                assert(self@.institutions =~= old(self)@.institutions.insert(wallet@, data@));
                Ok(
                    Notification {
                        operation: Operation::VerifyInstitution,
                        subject: wallet.clone(),
                    },
                )
            },
        }
    }

    /// Puts back the profile of an institution as it was kept elsewhere. No
    /// check is made and no notification: this is how a registry is filled
    /// from a persistent store.
    pub fn restore_institution(&mut self, wallet: &Identity, data: InstitutionData)
        ensures
            final(self)@ == old(self)@.restore_institution(wallet@, data@),
    {
        self.institutions.put(wallet.clone(), data);
        assert(self@.institutions =~= old(self)@.institutions.insert(wallet@, data@));
    }
}

} // verus!
