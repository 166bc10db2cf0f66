use vstd::prelude::*;
use crate::error::Error;
use crate::events::{carried_out, Notification, Operation};
use crate::authorization::{check_self, self_authorized};
use crate::identity::Identity;
use crate::roster::{enumerates, Roster};
use crate::table::Table;

verus! {

/// The profile of an insurer.
#[derive(Clone, Debug, PartialEq, Eq)]
pub struct InsurerData {
    pub name: String,
    pub license_id: String,
    pub metadata: String,
    pub contact_details: String,
    pub coverage_policies: String,
}

/// An insurer's profile as a value of the model.
pub struct InsurerView {
    pub name: Seq<char>,
    pub license_id: Seq<char>,
    pub metadata: Seq<char>,
    pub contact_details: Seq<char>,
    pub coverage_policies: Seq<char>,
}

impl View for InsurerData {
    type V = InsurerView;

    open spec fn view(&self) -> InsurerView {
        InsurerView {
            name: self.name@,
            license_id: self.license_id@,
            metadata: self.metadata@,
            contact_details: self.contact_details@,
            coverage_policies: self.coverage_policies@,
        }
    }
}

/// The part of an insurer's profile that the insurer may replace.
#[derive(Clone, Debug, PartialEq, Eq)]
pub enum InsurerField {
    Metadata(String),
    ContactDetails(String),
    CoveragePolicies(String),
}

/// A replaceable part of a profile, with its new content, as a value of the
/// model.
pub enum InsurerFieldView {
    Metadata(Seq<char>),
    ContactDetails(Seq<char>),
    CoveragePolicies(Seq<char>),
}

impl View for InsurerField {
    type V = InsurerFieldView;

    open spec fn view(&self) -> InsurerFieldView {
        match *self {
            InsurerField::Metadata(text) => InsurerFieldView::Metadata(text@),
            InsurerField::ContactDetails(text) => InsurerFieldView::ContactDetails(text@),
            InsurerField::CoveragePolicies(text) => InsurerFieldView::CoveragePolicies(text@),
        }
    }
}

impl InsurerFieldView {
    /// The operation that replaces this part.
    pub open spec fn operation(self) -> Operation {
        match self {
            InsurerFieldView::Metadata(_) => Operation::UpdateInsurer,
            InsurerFieldView::ContactDetails(_) => Operation::UpdateContactDetails,
            InsurerFieldView::CoveragePolicies(_) => Operation::UpdateCoveragePolicies,
        }
    }

    /// The profile `profile` with this part in place of the one it had.
    pub open spec fn replace_in(self, profile: InsurerView) -> InsurerView {
        match self {
            InsurerFieldView::Metadata(text) => InsurerView { metadata: text, ..profile },
            InsurerFieldView::ContactDetails(text) => InsurerView {
                contact_details: text,
                ..profile
            },
            InsurerFieldView::CoveragePolicies(text) => InsurerView {
                coverage_policies: text,
                ..profile
            },
        }
    }
}

impl InsurerField {
    /// The operation that replaces this part.
    pub fn operation(&self) -> (operation: Operation)
        ensures
            operation == self@.operation(),
    {
        match self {
            InsurerField::Metadata(_) => Operation::UpdateInsurer,
            InsurerField::ContactDetails(_) => Operation::UpdateContactDetails,
            InsurerField::CoveragePolicies(_) => Operation::UpdateCoveragePolicies,
        }
    }

    /// Puts this part into `profile`, in place of the one it had.
    pub fn replace_in(self, profile: &mut InsurerData)
        ensures
            final(profile)@ == self@.replace_in(old(profile)@),
    {
        match self {
            InsurerField::Metadata(text) => {
                profile.metadata = text;
            },
            InsurerField::ContactDetails(text) => {
                profile.contact_details = text;
            },
            InsurerField::CoveragePolicies(text) => {
                profile.coverage_policies = text;
            },
        }
    }
}

/// The model of the insurer registry.
pub struct InsurerState {
    /// The profile of each registered insurer.
    pub insurers: Map<Seq<char>, InsurerView>,
    /// The delegates in office, each a pair of the insurer who
    /// appointed the delegate and the delegate. A delegate handles claims.
    pub reviewers: Set<(Seq<char>, Seq<char>)>,
}

impl InsurerState {
    /// The registry before anything has happened.
    pub open spec fn empty() -> InsurerState {
        InsurerState { insurers: Map::empty(), reviewers: Set::empty() }
    }

    /// Whether `delegate` handles claims for `insurer`.
    pub open spec fn is_authorized_reviewer(self, insurer: Seq<char>, delegate: Seq<char>) -> bool {
        self.reviewers.contains((insurer, delegate))
    }

    /// Those who handle claims for `insurer`.
    pub open spec fn claims_reviewers(self, insurer: Seq<char>) -> Set<Seq<char>> {
        Set::new(|delegate: Seq<char>| self.reviewers.contains((insurer, delegate)))
    }

    /// Registers `wallet` as an insurer, with no contact details and no
    /// coverage policies yet.
    pub open spec fn register_insurer(
        self,
        caller: Seq<char>,
        wallet: Seq<char>,
        name: Seq<char>,
        license_id: Seq<char>,
        metadata: Seq<char>,
    ) -> Result<InsurerState, Error> {
        if self_authorized(caller, wallet) is Err {
            Err(Error::Unauthorized)
        } else if self.insurers.contains_key(wallet) {
            Err(Error::AlreadyExists)
        } else {
            Ok(
                self.restore_insurer(
                    wallet,
                    InsurerView {
                        name,
                        license_id,
                        metadata,
                        contact_details: Seq::empty(),
                        coverage_policies: Seq::empty(),
                    },
                ),
            )
        }
    }

    /// The profile of the insurer `wallet`.
    pub open spec fn get_insurer(self, wallet: Seq<char>) -> Result<InsurerView, Error> {
        if self.insurers.contains_key(wallet) {
            Ok(self.insurers[wallet])
        } else {
            Err(Error::NotFound)
        }
    }

    /// Replaces one part of the profile of the insurer `wallet`, and nothing
    /// else of it.
    pub open spec fn replace_field(
        self,
        caller: Seq<char>,
        wallet: Seq<char>,
        field: InsurerFieldView,
    ) -> Result<InsurerState, Error> {
        if self_authorized(caller, wallet) is Err {
            Err(Error::Unauthorized)
        } else if !self.insurers.contains_key(wallet) {
            Err(Error::NotFound)
        } else {
            Ok(self.restore_insurer(wallet, field.replace_in(self.insurers[wallet])))
        }
    }

    /// Appoints `delegate` to handle claims for `insurer`.
    pub open spec fn add_claims_reviewer(
        self,
        caller: Seq<char>,
        insurer: Seq<char>,
        delegate: Seq<char>,
    ) -> Result<InsurerState, Error> {
        if self_authorized(caller, insurer) is Err {
            Err(Error::Unauthorized)
        } else if !self.insurers.contains_key(insurer) {
            Err(Error::NotFound)
        } else if self.is_authorized_reviewer(insurer, delegate) {
            Err(Error::AlreadyAuthorized)
        } else {
            Ok(InsurerState { reviewers: self.reviewers.insert((insurer, delegate)), ..self })
        }
    }

    /// Ends the office of `delegate` for `insurer`.
    pub open spec fn remove_claims_reviewer(
        self,
        caller: Seq<char>,
        insurer: Seq<char>,
        delegate: Seq<char>,
    ) -> Result<InsurerState, Error> {
        if self_authorized(caller, insurer) is Err {
            Err(Error::Unauthorized)
        } else if !self.insurers.contains_key(insurer) {
            Err(Error::NotFound)
        } else if !self.is_authorized_reviewer(insurer, delegate) {
            Err(Error::NotFound)
        } else {
            Ok(InsurerState { reviewers: self.reviewers.remove((insurer, delegate)), ..self })
        }
    }

    /// Puts the profile `data` under the insurer `wallet`, whatever was
    /// there.
    pub open spec fn restore_insurer(self, wallet: Seq<char>, data: InsurerView) -> InsurerState {
        InsurerState { insurers: self.insurers.insert(wallet, data), ..self }
    }
}

/// The registry of insurers and of the delegates that each has
/// appointed.
pub struct InsurerRegistry {
    insurers: Table<InsurerData>,
    reviewers: Table<Roster>,
}

/// The offices that the rosters stand for.
spec fn offices_of(reviewers: Map<Seq<char>, Roster>) -> Set<(Seq<char>, Seq<char>)> {
    Set::new(
        |pair: (Seq<char>, Seq<char>)|
            reviewers.contains_key(pair.0) && reviewers[pair.0]@.contains(pair.1),
    )
}

impl View for InsurerRegistry {
    type V = InsurerState;

    closed spec fn view(&self) -> InsurerState {
        InsurerState {
            insurers: self.insurers@.map_values(|data: InsurerData| data@),
            reviewers: offices_of(self.reviewers@),
        }
    }
}

impl InsurerRegistry {
    /// The registry that holds nothing.
    pub fn new() -> (registry: InsurerRegistry)
        ensures
            registry@ == InsurerState::empty(),
    {
        let registry = InsurerRegistry { insurers: Table::new(), reviewers: Table::new() };
        assert(registry@.insurers =~= Map::empty());
        assert(registry@.reviewers =~= Set::empty());
        registry
    }

    /// Registers `wallet` as an insurer. The caller has to be `wallet`, which
    /// must not be registered yet.
    pub fn register_insurer(
        &mut self,
        caller: &Identity,
        wallet: &Identity,
        name: String,
        license_id: String,
        metadata: String,
    ) -> (answer: Result<Notification, Error>)
        ensures
            carried_out(
                old(self)@,
                final(self)@,
                old(self)@.register_insurer(caller@, wallet@, name@, license_id@, metadata@),
                Operation::RegisterInsurer,
                wallet@,
                answer,
            ),
    {
        if check_self(caller, wallet).is_err() {
            return Err(Error::Unauthorized);
        }
        if self.insurers.contains_key(wallet) {
            return Err(Error::AlreadyExists);
        }
        let data = InsurerData {
            name,
            license_id,
            metadata,
            contact_details: String::new(),
            coverage_policies: String::new(),
        };
        self.restore_insurer(wallet, data);
        Ok(Notification { operation: Operation::RegisterInsurer, subject: wallet.clone() })
    }

    /// The profile of the insurer `wallet`.
    pub fn get_insurer(&self, wallet: &Identity) -> (answer: Result<&InsurerData, Error>)
        ensures
            match answer {
                Ok(data) => self@.get_insurer(wallet@) == Ok::<InsurerView, Error>(data@),
                Err(error) => self@.get_insurer(wallet@) == Err::<InsurerView, Error>(error),
            },
    {
        match self.insurers.get(wallet) {
            Some(data) => Ok(data),
            None => Err(Error::NotFound),
        }
    }

    /// Replaces one part of the profile of the insurer `wallet`. The caller
    /// has to be `wallet`, which has to be registered.
    pub fn replace_field(
        &mut self,
        caller: &Identity,
        wallet: &Identity,
        field: InsurerField,
    ) -> (answer: Result<Notification, Error>)
        ensures
            carried_out(
                old(self)@,
                final(self)@,
                old(self)@.replace_field(caller@, wallet@, field@),
                field@.operation(),
                wallet@,
                answer,
            ),
    {
        if check_self(caller, wallet).is_err() {
            return Err(Error::Unauthorized);
        }
        match self.insurers.take(wallet) {
            None => {
                assert(self@.insurers =~= old(self)@.insurers);
                Err(Error::NotFound)
            },
            Some(mut data) => {
                let operation = field.operation();
                field.replace_in(&mut data);
                self.insurers.put(wallet.clone(), data);
                assert(self@.insurers =~= old(self)@.insurers.insert(wallet@, data@));
                Ok(Notification { operation, subject: wallet.clone() })
            },
        }
    }

    /// Replaces the metadata of the insurer `wallet`.
    pub fn update_insurer(
        &mut self,
        caller: &Identity,
        wallet: &Identity,
        metadata: String,
    ) -> (answer: Result<Notification, Error>)
        ensures
            carried_out(
                old(self)@,
                final(self)@,
                old(self)@.replace_field(caller@, wallet@, InsurerFieldView::Metadata(metadata@)),
                Operation::UpdateInsurer,
                wallet@,
                answer,
            ),
    {
        self.replace_field(caller, wallet, InsurerField::Metadata(metadata))
    }

    /// Replaces the contact details of the insurer `wallet`.
    pub fn update_contact_details(
        &mut self,
        caller: &Identity,
        wallet: &Identity,
        contact_details: String,
    ) -> (answer: Result<Notification, Error>)
        ensures
            carried_out(
                old(self)@,
                final(self)@,
                old(self)@.replace_field(
                    caller@,
                    wallet@,
                    InsurerFieldView::ContactDetails(contact_details@),
                ),
                Operation::UpdateContactDetails,
                wallet@,
                answer,
            ),
    {
        self.replace_field(caller, wallet, InsurerField::ContactDetails(contact_details))
    }

    /// Replaces the coverage policies of the insurer `wallet`.
    pub fn update_coverage_policies(
        &mut self,
        caller: &Identity,
        wallet: &Identity,
        coverage_policies: String,
    ) -> (answer: Result<Notification, Error>)
        ensures
            carried_out(
                old(self)@,
                final(self)@,
                old(self)@.replace_field(
                    caller@,
                    wallet@,
                    InsurerFieldView::CoveragePolicies(coverage_policies@),
                ),
                Operation::UpdateCoveragePolicies,
                wallet@,
                answer,
            ),
    {
        self.replace_field(caller, wallet, InsurerField::CoveragePolicies(coverage_policies))
    }

    /// Appoints `delegate` to handle claims for `insurer`. The caller has to
    /// be `insurer`, who has to be registered, and `delegate` must not be in
    /// office yet.
    pub fn add_claims_reviewer(
        &mut self,
        caller: &Identity,
        insurer: &Identity,
        delegate: &Identity,
    ) -> (answer: Result<Notification, Error>)
        ensures
            carried_out(
                old(self)@,
                final(self)@,
                old(self)@.add_claims_reviewer(caller@, insurer@, delegate@),
                Operation::AddClaimsReviewer,
                insurer@,
                answer,
            ),
    {
        if check_self(caller, insurer).is_err() {
            return Err(Error::Unauthorized);
        }
        if !self.insurers.contains_key(insurer) {
            return Err(Error::NotFound);
        }
        if self.is_authorized_reviewer(insurer, delegate) {
            return Err(Error::AlreadyAuthorized);
        }
        let mut roster = match self.reviewers.take(insurer) {
            Some(roster) => roster,
            None => Roster::new(),
        };
        roster.insert(delegate.clone());
        self.reviewers.put(insurer.clone(), roster);
        assert(self@.reviewers =~= old(self)@.reviewers.insert((insurer@, delegate@)));
        Ok(Notification { operation: Operation::AddClaimsReviewer, subject: insurer.clone() })
    }

    /// Ends the office of `delegate` for `insurer`. The caller has to be
    /// `insurer`, who has to be registered, and `delegate` has to be in
    /// office.
    pub fn remove_claims_reviewer(
        &mut self,
        caller: &Identity,
        insurer: &Identity,
        delegate: &Identity,
    ) -> (answer: Result<Notification, Error>)
        ensures
            carried_out(
                old(self)@,
                final(self)@,
                old(self)@.remove_claims_reviewer(caller@, insurer@, delegate@),
                Operation::RemoveClaimsReviewer,
                insurer@,
                answer,
            ),
    {
        if check_self(caller, insurer).is_err() {
            return Err(Error::Unauthorized);
        }
        if !self.insurers.contains_key(insurer) {
            return Err(Error::NotFound);
        }
        if !self.is_authorized_reviewer(insurer, delegate) {
            return Err(Error::NotFound);
        }
        match self.reviewers.take(insurer) {
            Some(mut roster) => {
                roster.remove(delegate);
                self.reviewers.put(insurer.clone(), roster);
            },
            None => {},
        }
        assert(self@.reviewers =~= old(self)@.reviewers.remove((insurer@, delegate@)));
        Ok(Notification { operation: Operation::RemoveClaimsReviewer, subject: insurer.clone() })
    }

    /// Whether `delegate` handles claims for `insurer`. It never fails.
    pub fn is_authorized_reviewer(&self, insurer: &Identity, delegate: &Identity) -> (held: bool)
        ensures
            held == self@.is_authorized_reviewer(insurer@, delegate@),
    {
        match self.reviewers.get(insurer) {
            Some(roster) => roster.contains(delegate),
            None => false,
        }
    }

    /// Those who handle claims for `insurer`, each once; none where nobody
    /// was appointed.
    pub fn get_claims_reviewers(&self, insurer: &Identity) -> (list: &[Identity])
        ensures
            enumerates(list@, self@.claims_reviewers(insurer@)),
    {
        match self.reviewers.get(insurer) {
            Some(roster) => {
                let list = roster.members();
                assert(self@.claims_reviewers(insurer@) =~= roster@);
                list
            },
            None => {
                assert(self@.claims_reviewers(insurer@) =~= Set::empty());
                &[]
            },
        }
    }

    /// Puts back the profile of an insurer as it was kept elsewhere. No check
    /// is made and no notification: this is how a registry is filled from a
    /// persistent store.
    pub fn restore_insurer(&mut self, wallet: &Identity, data: InsurerData)
        ensures
            final(self)@ == old(self)@.restore_insurer(wallet@, data@),
    {
        self.insurers.put(wallet.clone(), data);
        assert(self@.insurers =~= old(self)@.insurers.insert(wallet@, data@));
    }
}

} // verus!
