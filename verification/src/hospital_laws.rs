use vstd::prelude::*;
use crate::error::Error;
use crate::hospital::{ConfigView, DepartmentView, HospitalState, HospitalView, SectionView};

verus! {

/// One call of an operation of the hospital registry, with its arguments.
pub enum HospitalCall {
    RegisterHospital {
        caller: Seq<char>,
        wallet: Seq<char>,
        name: Seq<char>,
        location: Seq<char>,
        metadata: Seq<char>,
    },
    UpdateHospital { caller: Seq<char>, wallet: Seq<char>, metadata: Seq<char> },
    SetHospitalConfig { caller: Seq<char>, wallet: Seq<char>, config: ConfigView },
    ReplaceSection { caller: Seq<char>, wallet: Seq<char>, section: SectionView },
}

impl HospitalCall {
    /// Whether the call asks to register `wallet` as a hospital.
    pub open spec fn registers(self, wallet: Seq<char>) -> bool {
        self matches HospitalCall::RegisterHospital { wallet: subject, .. } && subject == wallet
    }
}

impl HospitalState {
    /// What the call `call` does to this state, or why it is refused.
    pub open spec fn apply(self, call: HospitalCall) -> Result<HospitalState, Error> {
        match call {
            HospitalCall::RegisterHospital { caller, wallet, name, location, metadata } => {
                self.register_hospital(caller, wallet, name, location, metadata)
            },
            HospitalCall::UpdateHospital { caller, wallet, metadata } => {
                self.update_hospital(caller, wallet, metadata)
            },
            HospitalCall::SetHospitalConfig { caller, wallet, config } => {
                self.set_hospital_config(caller, wallet, config)
            },
            HospitalCall::ReplaceSection { caller, wallet, section } => {
                self.replace_section(caller, wallet, section)
            },
        }
    }

    /// The state after the call `call`: the one it leads to, or this one
    /// where the call is refused.
    pub open spec fn after(self, call: HospitalCall) -> HospitalState {
        match self.apply(call) {
            Ok(next) => next,
            Err(_) => self,
        }
    }

    /// The state after the calls `calls`, made one after another.
    pub open spec fn run(self, calls: Seq<HospitalCall>) -> HospitalState
        decreases calls.len(),
    {
        if calls.len() == 0 {
            self
        } else {
            self.run(calls.drop_last()).after(calls.last())
        }
    }
}

impl SectionView {
    /// Whether this section of `config` holds exactly this content.
    pub open spec fn is_held_by(self, config: ConfigView) -> bool {
        match self {
            SectionView::Departments(list) => config.departments == list,
            SectionView::Locations(list) => config.locations == list,
            SectionView::Equipment(list) => config.equipment == list,
            SectionView::Policies(list) => config.policies == list,
            SectionView::Alerts(list) => config.alerts == list,
            SectionView::InsuranceProviders(list) => config.insurance_providers == list,
            SectionView::Billing(billing) => config.billing == billing,
            SectionView::EmergencyProtocols(list) => config.emergency_protocols == list,
        }
    }

    /// Whether this and `other` name the same section.
    pub open spec fn same_section_as(self, other: SectionView) -> bool {
        self.operation() == other.operation()
    }
}

/// Before anything has happened no hospital and no configuration is found.
pub proof fn nothing_in_the_empty_registry(wallet: Seq<char>)
    ensures
        HospitalState::empty().get_hospital(wallet) == Err::<HospitalView, Error>(Error::NotFound),
        HospitalState::empty().get_hospital_config(wallet) == Err::<ConfigView, Error>(
            Error::NotFound,
        ),
{
}

/// A hospital registers once: after `wallet` has asked to be registered,
/// whether that succeeded or not, a second request of its own is refused as
/// `AlreadyExists`, whatever profile it brings.
pub proof fn hospital_registers_once(
    state: HospitalState,
    wallet: Seq<char>,
    name: Seq<char>,
    location: Seq<char>,
    metadata: Seq<char>,
    again: HospitalView,
)
    ensures
        state.after(
            HospitalCall::RegisterHospital { caller: wallet, wallet, name, location, metadata },
        ).register_hospital(wallet, wallet, again.name, again.location, again.metadata) == Err::<
            HospitalState,
            Error,
        >(Error::AlreadyExists),
{
}

/// A hospital that is not found stays so through every call that is not a
/// request to register that hospital.
pub proof fn not_found_before_registration(
    state: HospitalState,
    calls: Seq<HospitalCall>,
    wallet: Seq<char>,
)
    requires
        state.get_hospital(wallet) is Err,
        forall|i: int| 0 <= i < calls.len() ==> !(#[trigger] calls[i]).registers(wallet),
    ensures
        state.run(calls).get_hospital(wallet) == Err::<HospitalView, Error>(Error::NotFound),
    decreases calls.len(),
{
    if calls.len() > 0 {
        let earlier = calls.drop_last();
        assert forall|i: int| 0 <= i < earlier.len() implies !(#[trigger] earlier[i]).registers(
            wallet,
        ) by {
            assert(earlier[i] == calls[i]);
        }
        not_found_before_registration(state, earlier, wallet);
        assert(!calls[calls.len() - 1].registers(wallet));
    }
}

/// A hospital and its configuration are there together or not at all, and
/// the configuration of a hospital that has just been registered is the
/// empty one.
pub proof fn config_comes_with_the_hospital(
    state: HospitalState,
    wallet: Seq<char>,
    name: Seq<char>,
    location: Seq<char>,
    metadata: Seq<char>,
)
    ensures
        state.get_hospital(wallet) is Ok <==> state.get_hospital_config(wallet) is Ok,
        state.register_hospital(wallet, wallet, name, location, metadata) matches Ok(next)
            ==> next.get_hospital(wallet) == Ok::<HospitalView, Error>(
            HospitalView { name, location, metadata },
        ) && next.get_hospital_config(wallet) == Ok::<ConfigView, Error>(ConfigView::empty()),
{
}

/// Once registered, a hospital is found ever after, and under the name and
/// at the location that it had: no operation changes them or takes the
/// hospital away.
pub proof fn name_and_location_are_kept(
    state: HospitalState,
    calls: Seq<HospitalCall>,
    wallet: Seq<char>,
)
    requires
        state.get_hospital(wallet) is Ok,
    ensures
        state.run(calls).get_hospital(wallet) is Ok,
        state.run(calls).get_hospital(wallet)->Ok_0.name == state.get_hospital(wallet)->Ok_0.name,
        state.run(calls).get_hospital(wallet)->Ok_0.location == state.get_hospital(
            wallet,
        )->Ok_0.location,
    decreases calls.len(),
{
    if calls.len() > 0 {
        name_and_location_are_kept(state, calls.drop_last(), wallet);
    }
}

/// A registered hospital that sets its whole configuration reads back
/// exactly what it set.
pub proof fn config_is_read_as_set(state: HospitalState, wallet: Seq<char>, config: ConfigView)
    requires
        state.get_hospital(wallet) is Ok,
    ensures
        state.set_hospital_config(wallet, wallet, config) is Ok,
        state.set_hospital_config(wallet, wallet, config)->Ok_0.get_hospital_config(wallet) == Ok::<
            ConfigView,
            Error,
        >(config),
        state.set_hospital_config(wallet, wallet, config)->Ok_0.get_hospital(wallet)
            == state.get_hospital(wallet),
{
}

/// A registered hospital that replaces its departments reads back exactly
/// the departments that it gave, whatever the section held before.
pub proof fn departments_are_replaced_whole(
    state: HospitalState,
    wallet: Seq<char>,
    departments: Seq<DepartmentView>,
)
    requires
        state.get_hospital(wallet) is Ok,
    ensures
        state.replace_section(wallet, wallet, SectionView::Departments(departments)) is Ok,
        state.replace_section(
            wallet,
            wallet,
            SectionView::Departments(departments),
        )->Ok_0.get_hospital_config(wallet) is Ok,
        state.replace_section(
            wallet,
            wallet,
            SectionView::Departments(departments),
        )->Ok_0.get_hospital_config(wallet)->Ok_0.departments == departments,
{
}

/// A registered hospital that replaces a section reads back exactly the
/// content that it gave for it, whatever the section held before; every
/// other section holds what it held, and so does the profile.
pub proof fn section_is_replaced_whole(
    state: HospitalState,
    wallet: Seq<char>,
    section: SectionView,
    other: SectionView,
)
    requires
        state.get_hospital(wallet) is Ok,
    ensures
        state.replace_section(wallet, wallet, section) is Ok,
        state.replace_section(wallet, wallet, section)->Ok_0.get_hospital_config(wallet) is Ok,
        section.is_held_by(
            state.replace_section(wallet, wallet, section)->Ok_0.get_hospital_config(wallet)->Ok_0,
        ),
        !other.same_section_as(section) ==> (other.is_held_by(
            state.replace_section(wallet, wallet, section)->Ok_0.get_hospital_config(wallet)->Ok_0,
        ) <==> other.is_held_by(state.get_hospital_config(wallet)->Ok_0)),
        state.replace_section(wallet, wallet, section)->Ok_0.get_hospital(wallet)
            == state.get_hospital(wallet),
{
}

/// What one hospital does leaves every other hospital as it was.
pub proof fn others_are_untouched(state: HospitalState, call: HospitalCall, bystander: Seq<char>)
    requires
        !(call matches HospitalCall::RegisterHospital { wallet, .. } && wallet == bystander),
        !(call matches HospitalCall::UpdateHospital { wallet, .. } && wallet == bystander),
        !(call matches HospitalCall::SetHospitalConfig { wallet, .. } && wallet == bystander),
        !(call matches HospitalCall::ReplaceSection { wallet, .. } && wallet == bystander),
    ensures
        state.after(call).get_hospital(bystander) == state.get_hospital(bystander),
        state.after(call).get_hospital_config(bystander) == state.get_hospital_config(bystander),
{
}

} // verus!
