use vstd::prelude::*;
use crate::error::Error;
use crate::events::{carried_out, Notification, Operation};
use crate::authorization::{check_self, self_authorized};
use crate::identity::Identity;
use crate::model::each_view;
use crate::table::Table;

verus! {

/// The profile of a hospital.
#[derive(Clone, Debug, PartialEq, Eq)]
pub struct HospitalData {
    pub name: String,
    pub location: String,
    pub metadata: String,
}

/// A hospital's profile as a value of the model.
pub struct HospitalView {
    pub name: Seq<char>,
    pub location: Seq<char>,
    pub metadata: Seq<char>,
}

impl View for HospitalData {
    type V = HospitalView;

    open spec fn view(&self) -> HospitalView {
        HospitalView { name: self.name@, location: self.location@, metadata: self.metadata@ }
    }
}

/// A department of a hospital.
#[derive(Clone, Debug, PartialEq, Eq)]
pub struct Department {
    pub name: String,
    pub head: String,
    pub contact: String,
}

/// A department as a value of the model.
pub struct DepartmentView {
    pub name: Seq<char>,
    pub head: Seq<char>,
    pub contact: Seq<char>,
}

impl View for Department {
    type V = DepartmentView;

    open spec fn view(&self) -> DepartmentView {
        DepartmentView { name: self.name@, head: self.head@, contact: self.contact@ }
    }
}

/// A site of a hospital.
#[derive(Clone, Debug, PartialEq, Eq)]
pub struct Location {
    pub name: String,
    pub address: String,
    pub metadata: String,
}

/// A site as a value of the model.
pub struct LocationView {
    pub name: Seq<char>,
    pub address: Seq<char>,
    pub metadata: Seq<char>,
}

impl View for Location {
    type V = LocationView;

    open spec fn view(&self) -> LocationView {
        LocationView { name: self.name@, address: self.address@, metadata: self.metadata@ }
    }
}

/// A kind of equipment that a hospital has, and how much of it.
#[derive(Clone, Debug, PartialEq, Eq)]
pub struct EquipmentResource {
    pub name: String,
    pub quantity: u32,
    pub status: String,
    pub metadata: String,
}

/// Equipment as a value of the model.
pub struct EquipmentView {
    pub name: Seq<char>,
    pub quantity: u32,
    pub status: Seq<char>,
    pub metadata: Seq<char>,
}

impl View for EquipmentResource {
    type V = EquipmentView;

    open spec fn view(&self) -> EquipmentView {
        EquipmentView {
            name: self.name@,
            quantity: self.quantity,
            status: self.status@,
            metadata: self.metadata@,
        }
    }
}

/// A policy or procedure of a hospital, in one version.
#[derive(Clone, Debug, PartialEq, Eq)]
pub struct PolicyProcedure {
    pub title: String,
    pub version: String,
    pub details: String,
}

/// A policy as a value of the model.
pub struct PolicyView {
    pub title: Seq<char>,
    pub version: Seq<char>,
    pub details: Seq<char>,
}

impl View for PolicyProcedure {
    type V = PolicyView;

    open spec fn view(&self) -> PolicyView {
        PolicyView { title: self.title@, version: self.version@, details: self.details@ }
    }
}

/// How one type of alert is raised, and to whom it escalates.
#[derive(Clone, Debug, PartialEq, Eq)]
pub struct AlertSetting {
    pub alert_type: String,
    pub enabled: bool,
    pub channels: Vec<String>,
    pub escalation_contact: String,
}

/// An alert setting as a value of the model.
pub struct AlertView {
    pub alert_type: Seq<char>,
    pub enabled: bool,
    pub channels: Seq<Seq<char>>,
    pub escalation_contact: Seq<char>,
}

impl View for AlertSetting {
    type V = AlertView;

    open spec fn view(&self) -> AlertView {
        AlertView {
            alert_type: self.alert_type@,
            enabled: self.enabled,
            channels: each_view(self.channels@),
            escalation_contact: self.escalation_contact@,
        }
    }
}

/// An insurance provider that a hospital works with, and its plans.
#[derive(Clone, Debug, PartialEq, Eq)]
pub struct InsuranceProviderConfig {
    pub provider_name: String,
    pub plan_codes: Vec<String>,
    pub billing_contact: String,
    pub metadata: String,
}

/// An insurance provider as a value of the model.
pub struct InsuranceProviderView {
    pub provider_name: Seq<char>,
    pub plan_codes: Seq<Seq<char>>,
    pub billing_contact: Seq<char>,
    pub metadata: Seq<char>,
}

impl View for InsuranceProviderConfig {
    type V = InsuranceProviderView;

    open spec fn view(&self) -> InsuranceProviderView {
        InsuranceProviderView {
            provider_name: self.provider_name@,
            plan_codes: each_view(self.plan_codes@),
            billing_contact: self.billing_contact@,
            metadata: self.metadata@,
        }
    }
}

/// The billing section of a configuration.
#[derive(Clone, Debug, PartialEq, Eq)]
pub struct BillingConfig {
    pub currency: String,
    pub payment_terms: String,
    pub tax_id: String,
}

/// The billing section as a value of the model.
pub struct BillingView {
    pub currency: Seq<char>,
    pub payment_terms: Seq<char>,
    pub tax_id: Seq<char>,
}

impl View for BillingConfig {
    type V = BillingView;

    open spec fn view(&self) -> BillingView {
        BillingView {
            currency: self.currency@,
            payment_terms: self.payment_terms@,
            tax_id: self.tax_id@,
        }
    }
}

/// What a hospital does in one kind of emergency.
#[derive(Clone, Debug, PartialEq, Eq)]
pub struct EmergencyProtocol {
    pub protocol_name: String,
    pub description: String,
    pub last_updated: u64,
    pub contact: String,
}

/// An emergency protocol as a value of the model.
pub struct ProtocolView {
    pub protocol_name: Seq<char>,
    pub description: Seq<char>,
    pub last_updated: u64,
    pub contact: Seq<char>,
}

impl View for EmergencyProtocol {
    type V = ProtocolView;

    open spec fn view(&self) -> ProtocolView {
        ProtocolView {
            protocol_name: self.protocol_name@,
            description: self.description@,
            last_updated: self.last_updated,
            contact: self.contact@,
        }
    }
}

/// The configuration of a hospital: seven sections that are lists, and the
/// billing section, which is one object. Each section is replaced as a whole.
#[derive(Clone, Debug, PartialEq, Eq)]
pub struct HospitalConfig {
    pub departments: Vec<Department>,
    pub locations: Vec<Location>,
    pub equipment: Vec<EquipmentResource>,
    pub policies: Vec<PolicyProcedure>,
    pub alerts: Vec<AlertSetting>,
    pub insurance_providers: Vec<InsuranceProviderConfig>,
    pub billing: BillingConfig,
    pub emergency_protocols: Vec<EmergencyProtocol>,
}

/// A hospital's configuration as a value of the model.
pub struct ConfigView {
    pub departments: Seq<DepartmentView>,
    pub locations: Seq<LocationView>,
    pub equipment: Seq<EquipmentView>,
    pub policies: Seq<PolicyView>,
    pub alerts: Seq<AlertView>,
    pub insurance_providers: Seq<InsuranceProviderView>,
    pub billing: BillingView,
    pub emergency_protocols: Seq<ProtocolView>,
}

impl ConfigView {
    /// The configuration that a hospital has when it is registered: every
    /// list empty, every text of the billing section empty.
    pub open spec fn empty() -> ConfigView {
        ConfigView {
            departments: Seq::empty(),
            locations: Seq::empty(),
            equipment: Seq::empty(),
            policies: Seq::empty(),
            alerts: Seq::empty(),
            insurance_providers: Seq::empty(),
            billing: BillingView {
                currency: Seq::empty(),
                payment_terms: Seq::empty(),
                tax_id: Seq::empty(),
            },
            emergency_protocols: Seq::empty(),
        }
    }
}

impl View for HospitalConfig {
    type V = ConfigView;

    open spec fn view(&self) -> ConfigView {
        ConfigView {
            departments: each_view(self.departments@),
            locations: each_view(self.locations@),
            equipment: each_view(self.equipment@),
            policies: each_view(self.policies@),
            alerts: each_view(self.alerts@),
            insurance_providers: each_view(self.insurance_providers@),
            billing: self.billing@,
            emergency_protocols: each_view(self.emergency_protocols@),
        }
    }
}

/// One section of a configuration, with the content that is to take the
/// place of what the section holds.
#[derive(Clone, Debug, PartialEq, Eq)]
pub enum Section {
    Departments(Vec<Department>),
    Locations(Vec<Location>),
    Equipment(Vec<EquipmentResource>),
    Policies(Vec<PolicyProcedure>),
    Alerts(Vec<AlertSetting>),
    InsuranceProviders(Vec<InsuranceProviderConfig>),
    Billing(BillingConfig),
    EmergencyProtocols(Vec<EmergencyProtocol>),
}

/// A section and its new content as a value of the model.
pub enum SectionView {
    Departments(Seq<DepartmentView>),
    Locations(Seq<LocationView>),
    Equipment(Seq<EquipmentView>),
    Policies(Seq<PolicyView>),
    Alerts(Seq<AlertView>),
    InsuranceProviders(Seq<InsuranceProviderView>),
    Billing(BillingView),
    EmergencyProtocols(Seq<ProtocolView>),
}

impl View for Section {
    type V = SectionView;

    open spec fn view(&self) -> SectionView {
        match *self {
            Section::Departments(list) => SectionView::Departments(each_view(list@)),
            Section::Locations(list) => SectionView::Locations(each_view(list@)),
            Section::Equipment(list) => SectionView::Equipment(each_view(list@)),
            Section::Policies(list) => SectionView::Policies(each_view(list@)),
            Section::Alerts(list) => SectionView::Alerts(each_view(list@)),
            Section::InsuranceProviders(list) => SectionView::InsuranceProviders(each_view(list@)),
            Section::Billing(billing) => SectionView::Billing(billing@),
            Section::EmergencyProtocols(list) => SectionView::EmergencyProtocols(each_view(list@)),
        }
    }
}

impl SectionView {
    /// The operation that replaces this section.
    pub open spec fn operation(self) -> Operation {
        match self {
            SectionView::Departments(_) => Operation::UpdateDepartments,
            SectionView::Locations(_) => Operation::UpdateLocations,
            SectionView::Equipment(_) => Operation::UpdateEquipment,
            SectionView::Policies(_) => Operation::UpdatePolicies,
            SectionView::Alerts(_) => Operation::UpdateAlerts,
            SectionView::InsuranceProviders(_) => Operation::UpdateInsuranceProviders,
            SectionView::Billing(_) => Operation::UpdateBilling,
            SectionView::EmergencyProtocols(_) => Operation::UpdateEmergencyProtocols,
        }
    }

    /// The configuration `config` with this section in place of the one it
    /// had: nothing of the old section is kept, nothing of the others is
    /// touched.
    pub open spec fn replace_in(self, config: ConfigView) -> ConfigView {
        match self {
            SectionView::Departments(list) => ConfigView { departments: list, ..config },
            SectionView::Locations(list) => ConfigView { locations: list, ..config },
            SectionView::Equipment(list) => ConfigView { equipment: list, ..config },
            SectionView::Policies(list) => ConfigView { policies: list, ..config },
            SectionView::Alerts(list) => ConfigView { alerts: list, ..config },
            SectionView::InsuranceProviders(list) => ConfigView {
                insurance_providers: list,
                ..config
            },
            SectionView::Billing(billing) => ConfigView { billing, ..config },
            SectionView::EmergencyProtocols(list) => ConfigView {
                emergency_protocols: list,
                ..config
            },
        }
    }
}

impl Section {
    /// The operation that replaces this section.
    pub fn operation(&self) -> (operation: Operation)
        ensures
            operation == self@.operation(),
    {
        match self {
            Section::Departments(_) => Operation::UpdateDepartments,
            Section::Locations(_) => Operation::UpdateLocations,
            Section::Equipment(_) => Operation::UpdateEquipment,
            Section::Policies(_) => Operation::UpdatePolicies,
            Section::Alerts(_) => Operation::UpdateAlerts,
            Section::InsuranceProviders(_) => Operation::UpdateInsuranceProviders,
            Section::Billing(_) => Operation::UpdateBilling,
            Section::EmergencyProtocols(_) => Operation::UpdateEmergencyProtocols,
        }
    }

    /// Puts this section into `config`, in place of the one it had.
    pub fn replace_in(self, config: &mut HospitalConfig)
        ensures
            final(config)@ == self@.replace_in(old(config)@),
    {
        match self {
            Section::Departments(list) => {
                config.departments = list;
            },
            Section::Locations(list) => {
                config.locations = list;
            },
            Section::Equipment(list) => {
                config.equipment = list;
            },
            Section::Policies(list) => {
                config.policies = list;
            },
            Section::Alerts(list) => {
                config.alerts = list;
            },
            Section::InsuranceProviders(list) => {
                config.insurance_providers = list;
            },
            Section::Billing(billing) => {
                config.billing = billing;
            },
            Section::EmergencyProtocols(list) => {
                config.emergency_protocols = list;
            },
        }
    }
}

/// What the model holds for one hospital: its profile and its configuration.
/// The two come into being together.
pub struct AccountView {
    pub profile: HospitalView,
    pub config: ConfigView,
}

/// The model of the hospital registry.
pub struct HospitalState {
    pub accounts: Map<Seq<char>, AccountView>,
}

impl HospitalState {
    /// The registry before anything has happened.
    pub open spec fn empty() -> HospitalState {
        HospitalState { accounts: Map::empty() }
    }

    /// Registers `wallet` as a hospital, with the empty configuration.
    pub open spec fn register_hospital(
        self,
        caller: Seq<char>,
        wallet: Seq<char>,
        name: Seq<char>,
        location: Seq<char>,
        metadata: Seq<char>,
    ) -> Result<HospitalState, Error> {
        if self_authorized(caller, wallet) is Err {
            Err(Error::Unauthorized)
        } else if self.accounts.contains_key(wallet) {
            Err(Error::AlreadyExists)
        } else {
            Ok(
                self.restore_hospital(
                    wallet,
                    HospitalView { name, location, metadata },
                    ConfigView::empty(),
                ),
            )
        }
    }

    /// Replaces the metadata of the hospital `wallet`, and nothing else.
    pub open spec fn update_hospital(
        self,
        caller: Seq<char>,
        wallet: Seq<char>,
        metadata: Seq<char>,
    ) -> Result<HospitalState, Error> {
        if self_authorized(caller, wallet) is Err {
            Err(Error::Unauthorized)
        } else if !self.accounts.contains_key(wallet) {
            Err(Error::NotFound)
        } else {
            Ok(
                self.restore_hospital(
                    wallet,
                    HospitalView { metadata, ..self.accounts[wallet].profile },
                    self.accounts[wallet].config,
                ),
            )
        }
    }

    /// The profile of the hospital `wallet`.
    pub open spec fn get_hospital(self, wallet: Seq<char>) -> Result<HospitalView, Error> {
        if self.accounts.contains_key(wallet) {
            Ok(self.accounts[wallet].profile)
        } else {
            Err(Error::NotFound)
        }
    }

    /// Replaces the whole configuration of the hospital `wallet`.
    pub open spec fn set_hospital_config(
        self,
        caller: Seq<char>,
        wallet: Seq<char>,
        config: ConfigView,
    ) -> Result<HospitalState, Error> {
        if self_authorized(caller, wallet) is Err {
            Err(Error::Unauthorized)
        } else if !self.accounts.contains_key(wallet) {
            Err(Error::NotFound)
        } else {
            Ok(self.restore_hospital(wallet, self.accounts[wallet].profile, config))
        }
    }

    /// The configuration of the hospital `wallet`.
    pub open spec fn get_hospital_config(self, wallet: Seq<char>) -> Result<ConfigView, Error> {
        if self.accounts.contains_key(wallet) {
            Ok(self.accounts[wallet].config)
        } else {
            Err(Error::NotFound)
        }
    }

    /// Replaces one section of the configuration of the hospital `wallet`.
    pub open spec fn replace_section(
        self,
        caller: Seq<char>,
        wallet: Seq<char>,
        section: SectionView,
    ) -> Result<HospitalState, Error> {
        if self_authorized(caller, wallet) is Err {
            Err(Error::Unauthorized)
        } else if !self.accounts.contains_key(wallet) {
            Err(Error::NotFound)
        } else {
            Ok(
                self.restore_hospital(
                    wallet,
                    self.accounts[wallet].profile,
                    section.replace_in(self.accounts[wallet].config),
                ),
            )
        }
    }

    /// Puts `profile` and `config` under the hospital `wallet`, whatever was
    /// there.
    pub open spec fn restore_hospital(
        self,
        wallet: Seq<char>,
        profile: HospitalView,
        config: ConfigView,
    ) -> HospitalState {
        HospitalState { accounts: self.accounts.insert(wallet, AccountView { profile, config }) }
    }
}

/// What the registry holds for one hospital.
struct Account {
    data: HospitalData,
    config: HospitalConfig,
}

impl View for Account {
    type V = AccountView;

    closed spec fn view(&self) -> AccountView {
        AccountView { profile: self.data@, config: self.config@ }
    }
}

/// The registry of hospitals and of the configuration of each.
pub struct HospitalRegistry {
    accounts: Table<Account>,
}

impl View for HospitalRegistry {
    type V = HospitalState;

    closed spec fn view(&self) -> HospitalState {
        HospitalState { accounts: self.accounts@.map_values(|account: Account| account@) }
    }
}

impl HospitalRegistry {
    /// The registry that holds nothing.
    pub fn new() -> (registry: HospitalRegistry)
        ensures
            registry@ == HospitalState::empty(),
    {
        let registry = HospitalRegistry { accounts: Table::new() };
        assert(registry@.accounts =~= Map::empty());
        registry
    }

    /// Says whether `wallet` is a registered hospital, by failing where it is
    /// none.
    pub fn assert_hospital_exists(&self, wallet: &Identity) -> (answer: Result<(), Error>)
        ensures
            answer == if self@.accounts.contains_key(wallet@) {
                Ok::<(), Error>(())
            } else {
                Err::<(), Error>(Error::NotFound)
            },
    {
        if self.accounts.contains_key(wallet) {
            Ok(())
        } else {
            Err(Error::NotFound)
        }
    }

    /// The configuration that a hospital has when it is registered.
    pub fn default_config() -> (config: HospitalConfig)
        ensures
            config@ == ConfigView::empty(),
    {
        let config = HospitalConfig {
            departments: Vec::new(),
            locations: Vec::new(),
            equipment: Vec::new(),
            policies: Vec::new(),
            alerts: Vec::new(),
            insurance_providers: Vec::new(),
            billing: BillingConfig {
                currency: String::new(),
                payment_terms: String::new(),
                tax_id: String::new(),
            },
            emergency_protocols: Vec::new(),
        };
        assert(config@.departments =~= Seq::empty());
        assert(config@.locations =~= Seq::empty());
        assert(config@.equipment =~= Seq::empty());
        assert(config@.policies =~= Seq::empty());
        assert(config@.alerts =~= Seq::empty());
        assert(config@.insurance_providers =~= Seq::empty());
        assert(config@.emergency_protocols =~= Seq::empty());
        config
    }

    /// Registers `wallet` as a hospital and gives it the empty configuration
    /// in the same step. The caller has to be `wallet`, which must not be
    /// registered yet.
    pub fn register_hospital(
        &mut self,
        caller: &Identity,
        wallet: &Identity,
        name: String,
        location: String,
        metadata: String,
    ) -> (answer: Result<Notification, Error>)
        ensures
            carried_out(
                old(self)@,
                final(self)@,
                old(self)@.register_hospital(caller@, wallet@, name@, location@, metadata@),
                Operation::RegisterHospital,
                wallet@,
                answer,
            ),
    {
        if check_self(caller, wallet).is_err() {
            return Err(Error::Unauthorized);
        }
        if self.accounts.contains_key(wallet) {
            return Err(Error::AlreadyExists);
        }
        let data = HospitalData { name, location, metadata };
        let config = Self::default_config();
        self.restore_hospital(wallet, data, config);
        Ok(Notification { operation: Operation::RegisterHospital, subject: wallet.clone() })
    }

    /// Replaces the metadata of the hospital `wallet`. The caller has to be
    /// `wallet`, which has to be registered.
    pub fn update_hospital(
        &mut self,
        caller: &Identity,
        wallet: &Identity,
        metadata: String,
    ) -> (answer: Result<Notification, Error>)
        ensures
            carried_out(
                old(self)@,
                final(self)@,
                old(self)@.update_hospital(caller@, wallet@, metadata@),
                Operation::UpdateHospital,
                wallet@,
                answer,
            ),
    {
        if check_self(caller, wallet).is_err() {
            return Err(Error::Unauthorized);
        }
        match self.accounts.take(wallet) {
            None => {
                assert(self@.accounts =~= old(self)@.accounts);
                Err(Error::NotFound)
            },
            Some(mut account) => {
                account.data.metadata = metadata;
                self.accounts.put(wallet.clone(), account);
                assert(self@.accounts =~= old(self)@.accounts.insert(wallet@, account@));
                Ok(Notification { operation: Operation::UpdateHospital, subject: wallet.clone() })
            },
        }
    }

    /// The profile of the hospital `wallet`.
    pub fn get_hospital(&self, wallet: &Identity) -> (answer: Result<&HospitalData, Error>)
        ensures
            match answer {
                Ok(data) => self@.get_hospital(wallet@) == Ok::<HospitalView, Error>(data@),
                Err(error) => self@.get_hospital(wallet@) == Err::<HospitalView, Error>(error),
            },
    {
        match self.accounts.get(wallet) {
            Some(account) => Ok(&account.data),
            None => Err(Error::NotFound),
        }
    }

    /// Replaces the whole configuration of the hospital `wallet`. The caller
    /// has to be `wallet`, which has to be registered.
    pub fn set_hospital_config(
        &mut self,
        caller: &Identity,
        wallet: &Identity,
        config: HospitalConfig,
    ) -> (answer: Result<Notification, Error>)
        ensures
            carried_out(
                old(self)@,
                final(self)@,
                old(self)@.set_hospital_config(caller@, wallet@, config@),
                Operation::SetHospitalConfig,
                wallet@,
                answer,
            ),
    {
        if check_self(caller, wallet).is_err() {
            return Err(Error::Unauthorized);
        }
        match self.accounts.take(wallet) {
            None => {
                assert(self@.accounts =~= old(self)@.accounts);
                Err(Error::NotFound)
            },
            Some(mut account) => {
                account.config = config;
                self.accounts.put(wallet.clone(), account);
                assert(self@.accounts =~= old(self)@.accounts.insert(wallet@, account@));
                Ok(
                    Notification {
                        operation: Operation::SetHospitalConfig,
                        subject: wallet.clone(),
                    },
                )
            },
        }
    }

    /// The configuration of the hospital `wallet`.
    pub fn get_hospital_config(&self, wallet: &Identity) -> (answer: Result<&HospitalConfig, Error>)
        ensures
            match answer {
                Ok(config) => self@.get_hospital_config(wallet@) == Ok::<ConfigView, Error>(
                    config@,
                ),
                Err(error) => self@.get_hospital_config(wallet@) == Err::<ConfigView, Error>(
                    error,
                ),
            },
    {
        match self.accounts.get(wallet) {
            Some(account) => Ok(&account.config),
            None => Err(Error::NotFound),
        }
    }

    /// Replaces one section of the configuration of the hospital `wallet` as
    /// a whole: what the section held is discarded, the other sections stay.
    /// The caller has to be `wallet`, which has to be registered.
    pub fn replace_section(
        &mut self,
        caller: &Identity,
        wallet: &Identity,
        section: Section,
    ) -> (answer: Result<Notification, Error>)
        ensures
            carried_out(
                old(self)@,
                final(self)@,
                old(self)@.replace_section(caller@, wallet@, section@),
                section@.operation(),
                wallet@,
                answer,
            ),
    {
        if check_self(caller, wallet).is_err() {
            return Err(Error::Unauthorized);
        }
        match self.accounts.take(wallet) {
            None => {
                assert(self@.accounts =~= old(self)@.accounts);
                Err(Error::NotFound)
            },
            Some(mut account) => {
                let operation = section.operation();
                let mut config = account.config;
                section.replace_in(&mut config);
                account.config = config;
                self.accounts.put(wallet.clone(), account);
                assert(self@.accounts =~= old(self)@.accounts.insert(wallet@, account@));
                Ok(Notification { operation, subject: wallet.clone() })
            },
        }
    }

    /// Replaces the departments of the hospital `wallet`.
    pub fn update_departments(
        &mut self,
        caller: &Identity,
        wallet: &Identity,
        departments: Vec<Department>,
    ) -> (answer: Result<Notification, Error>)
        ensures
            carried_out(
                old(self)@,
                final(self)@,
                old(self)@.replace_section(
                    caller@,
                    wallet@,
                    SectionView::Departments(each_view(departments@)),
                ),
                Operation::UpdateDepartments,
                wallet@,
                answer,
            ),
    {
        self.replace_section(caller, wallet, Section::Departments(departments))
    }

    /// Replaces the locations of the hospital `wallet`.
    pub fn update_locations(
        &mut self,
        caller: &Identity,
        wallet: &Identity,
        locations: Vec<Location>,
    ) -> (answer: Result<Notification, Error>)
        ensures
            carried_out(
                old(self)@,
                final(self)@,
                old(self)@.replace_section(
                    caller@,
                    wallet@,
                    SectionView::Locations(each_view(locations@)),
                ),
                Operation::UpdateLocations,
                wallet@,
                answer,
            ),
    {
        self.replace_section(caller, wallet, Section::Locations(locations))
    }

    /// Replaces the equipment of the hospital `wallet`.
    pub fn update_equipment(
        &mut self,
        caller: &Identity,
        wallet: &Identity,
        equipment: Vec<EquipmentResource>,
    ) -> (answer: Result<Notification, Error>)
        ensures
            carried_out(
                old(self)@,
                final(self)@,
                old(self)@.replace_section(
                    caller@,
                    wallet@,
                    SectionView::Equipment(each_view(equipment@)),
                ),
                Operation::UpdateEquipment,
                wallet@,
                answer,
            ),
    {
        self.replace_section(caller, wallet, Section::Equipment(equipment))
    }

    /// Replaces the policies of the hospital `wallet`.
    pub fn update_policies(
        &mut self,
        caller: &Identity,
        wallet: &Identity,
        policies: Vec<PolicyProcedure>,
    ) -> (answer: Result<Notification, Error>)
        ensures
            carried_out(
                old(self)@,
                final(self)@,
                old(self)@.replace_section(
                    caller@,
                    wallet@,
                    SectionView::Policies(each_view(policies@)),
                ),
                Operation::UpdatePolicies,
                wallet@,
                answer,
            ),
    {
        self.replace_section(caller, wallet, Section::Policies(policies))
    }

    /// Replaces the alert settings of the hospital `wallet`.
    pub fn update_alerts(
        &mut self,
        caller: &Identity,
        wallet: &Identity,
        alerts: Vec<AlertSetting>,
    ) -> (answer: Result<Notification, Error>)
        ensures
            carried_out(
                old(self)@,
                final(self)@,
                old(self)@.replace_section(
                    caller@,
                    wallet@,
                    SectionView::Alerts(each_view(alerts@)),
                ),
                Operation::UpdateAlerts,
                wallet@,
                answer,
            ),
    {
        self.replace_section(caller, wallet, Section::Alerts(alerts))
    }

    /// Replaces the insurance providers of the hospital `wallet`.
    pub fn update_insurance_providers(
        &mut self,
        caller: &Identity,
        wallet: &Identity,
        insurance_providers: Vec<InsuranceProviderConfig>,
    ) -> (answer: Result<Notification, Error>)
        ensures
            carried_out(
                old(self)@,
                final(self)@,
                old(self)@.replace_section(
                    caller@,
                    wallet@,
                    SectionView::InsuranceProviders(each_view(insurance_providers@)),
                ),
                Operation::UpdateInsuranceProviders,
                wallet@,
                answer,
            ),
    {
        self.replace_section(caller, wallet, Section::InsuranceProviders(insurance_providers))
    }

    /// Replaces the billing section of the hospital `wallet`.
    pub fn update_billing(
        &mut self,
        caller: &Identity,
        wallet: &Identity,
        billing: BillingConfig,
    ) -> (answer: Result<Notification, Error>)
        ensures
            carried_out(
                old(self)@,
                final(self)@,
                old(self)@.replace_section(caller@, wallet@, SectionView::Billing(billing@)),
                Operation::UpdateBilling,
                wallet@,
                answer,
            ),
    {
        self.replace_section(caller, wallet, Section::Billing(billing))
    }

    /// Replaces the emergency protocols of the hospital `wallet`.
    pub fn update_emergency_protocols(
        &mut self,
        caller: &Identity,
        wallet: &Identity,
        protocols: Vec<EmergencyProtocol>,
    ) -> (answer: Result<Notification, Error>)
        ensures
            carried_out(
                old(self)@,
                final(self)@,
                old(self)@.replace_section(
                    caller@,
                    wallet@,
                    SectionView::EmergencyProtocols(each_view(protocols@)),
                ),
                Operation::UpdateEmergencyProtocols,
                wallet@,
                answer,
            ),
    {
        self.replace_section(caller, wallet, Section::EmergencyProtocols(protocols))
    }

    /// Puts back a hospital as it was kept elsewhere. No check is made and no
    /// notification: this is how a registry is filled from a persistent
    /// store.
    pub fn restore_hospital(
        &mut self,
        wallet: &Identity,
        data: HospitalData,
        config: HospitalConfig,
    )
        ensures
            final(self)@ == old(self)@.restore_hospital(wallet@, data@, config@),
    {
        let account = Account { data, config };
        self.accounts.put(wallet.clone(), account);
        assert(self@.accounts =~= old(self)@.accounts.insert(wallet@, account@));
    }
}

} // verus!
