use vstd::prelude::*;
use crate::error::Error;
use crate::institution::{HealthcareState, InstitutionView};

verus! {

/// One call of an operation of the institution registry, with its
/// arguments.
pub enum HealthcareCall {
    Init { admin: Seq<char> },
    RegisterInstitution {
        caller: Seq<char>,
        wallet: Seq<char>,
        name: Seq<char>,
        license_id: Seq<char>,
        metadata: Seq<char>,
    },
    UpdateInstitution { caller: Seq<char>, wallet: Seq<char>, metadata: Seq<char> },
    VerifyInstitution { caller: Seq<char>, verifier: Seq<char>, wallet: Seq<char> },
}

impl HealthcareCall {
    /// Whether the call asks to register `wallet` as an institution.
    pub open spec fn registers(self, wallet: Seq<char>) -> bool {
        self matches HealthcareCall::RegisterInstitution { wallet: subject, .. } && subject
            == wallet
    }
}

impl HealthcareState {
    /// What the call `call` does to this state, or why it is refused.
    pub open spec fn apply(self, call: HealthcareCall) -> Result<HealthcareState, Error> {
        match call {
            HealthcareCall::Init { admin } => self.init(admin),
            HealthcareCall::RegisterInstitution { caller, wallet, name, license_id, metadata } => {
                self.register_institution(caller, wallet, name, license_id, metadata)
            },
            HealthcareCall::UpdateInstitution { caller, wallet, metadata } => {
                self.update_institution(caller, wallet, metadata)
            },
            HealthcareCall::VerifyInstitution { caller, verifier, wallet } => {
                self.verify_institution(caller, verifier, wallet)
            },
        }
    }

    /// The state after the call `call`: the one it leads to, or this one
    /// where the call is refused.
    pub open spec fn after(self, call: HealthcareCall) -> HealthcareState {
        match self.apply(call) {
            Ok(next) => next,
            Err(_) => self,
        }
    }

    /// The state after the calls `calls`, made one after another.
    pub open spec fn run(self, calls: Seq<HealthcareCall>) -> HealthcareState
        decreases calls.len(),
    {
        if calls.len() == 0 {
            self
        } else {
            self.run(calls.drop_last()).after(calls.last())
        }
    }
}

/// Before anything has happened no institution is found.
pub proof fn nothing_in_the_empty_registry(wallet: Seq<char>)
    ensures
        HealthcareState::empty().get_institution(wallet) == Err::<InstitutionView, Error>(
            Error::NotFound,
        ),
{
}

/// An institution registers once: after `wallet` has asked to be
/// registered, whether that succeeded or not, a second request of its own is
/// refused as `AlreadyExists`, whatever profile it brings.
pub proof fn institution_registers_once(
    state: HealthcareState,
    wallet: Seq<char>,
    name: Seq<char>,
    license_id: Seq<char>,
    metadata: Seq<char>,
    again: InstitutionView,
)
    ensures
        state.after(
            HealthcareCall::RegisterInstitution {
                caller: wallet,
                wallet,
                name,
                license_id,
                metadata,
            },
        ).register_institution(wallet, wallet, again.name, again.license_id, again.metadata)
            == Err::<HealthcareState, Error>(Error::AlreadyExists),
{
}

/// An institution that is not found stays so through every call that is not
/// a request to register that institution.
pub proof fn not_found_before_registration(
    state: HealthcareState,
    calls: Seq<HealthcareCall>,
    wallet: Seq<char>,
)
    requires
        state.get_institution(wallet) is Err,
        forall|i: int| 0 <= i < calls.len() ==> !(#[trigger] calls[i]).registers(wallet),
    ensures
        state.run(calls).get_institution(wallet) == Err::<InstitutionView, Error>(Error::NotFound),
    decreases calls.len(),
{
    if calls.len() > 0 {
        let earlier = calls.drop_last();
        assert forall|i: int| 0 <= i < earlier.len() implies !(#[trigger] earlier[i]).registers(
            wallet,
        ) by {
            assert(earlier[i] == calls[i]);
        }
        not_found_before_registration(state, earlier, wallet);
        assert(!calls[calls.len() - 1].registers(wallet));
    }
}

/// The administrative principal is named once. In a registry without a
/// principal `init` stores the one it is given and touches no institution;
/// a later `init` is refused as `AlreadyExists`, whoever it names, and the
/// first principal stays.
pub proof fn admin_is_named_once(state: HealthcareState, admin: Seq<char>, later: Seq<char>)
    requires
        state.admin is None,
    ensures
        state.init(admin) == Ok::<HealthcareState, Error>(
            HealthcareState { admin: Some(admin), institutions: state.institutions },
        ),
        state.init(admin)->Ok_0.init(later) == Err::<HealthcareState, Error>(Error::AlreadyExists),
        state.after(HealthcareCall::Init { admin }).after(HealthcareCall::Init { admin: later }).admin
            == Some(admin),
{
}

/// A stored administrative principal stays the principal through every
/// history of calls: no operation replaces or removes it.
pub proof fn admin_is_kept(state: HealthcareState, calls: Seq<HealthcareCall>)
    requires
        state.admin is Some,
    ensures
        state.run(calls).admin == state.admin,
    decreases calls.len(),
{
    if calls.len() > 0 {
        admin_is_kept(state, calls.drop_last());
    }
}

/// From the empty registry on, the administrative principal is the one that
/// the first `init` of the history named: whoever verifies an institution
/// after that call is that principal.
pub proof fn first_init_decides(
    admin: Seq<char>,
    calls: Seq<HealthcareCall>,
    verifier: Seq<char>,
    wallet: Seq<char>,
)
    ensures
        HealthcareState::empty().after(HealthcareCall::Init { admin }).run(calls).admin == Some(
            admin,
        ),
        HealthcareState::empty().after(HealthcareCall::Init { admin }).run(
            calls,
        ).verify_institution(verifier, verifier, wallet) is Ok ==> verifier == admin,
{
    admin_is_kept(HealthcareState::empty().after(HealthcareCall::Init { admin }), calls);
}

/// Only `init` names a principal: through calls of which none is an `init`,
/// a registry without a principal stays without one.
pub proof fn no_admin_without_init(state: HealthcareState, calls: Seq<HealthcareCall>)
    requires
        state.admin is None,
        forall|i: int| 0 <= i < calls.len() ==> !((#[trigger] calls[i]) is Init),
    ensures
        state.run(calls).admin is None,
    decreases calls.len(),
{
    if calls.len() > 0 {
        let earlier = calls.drop_last();
        assert forall|i: int| 0 <= i < earlier.len() implies !((#[trigger] earlier[i]) is Init) by {
            assert(earlier[i] == calls[i]);
        }
        no_admin_without_init(state, earlier);
        assert(!(calls[calls.len() - 1] is Init));
    }
}

/// A verifier who acts in person verifies a registered institution exactly
/// when the verifier is the administrative principal. Where another
/// principal is stored the call is refused as `Unauthorized`, where none is
/// stored as `InvalidAdmin`; after success the institution reads as
/// verified.
pub proof fn only_the_admin_verifies(state: HealthcareState, verifier: Seq<char>, wallet: Seq<char>)
    requires
        state.get_institution(wallet) is Ok,
    ensures
        state.verify_institution(verifier, verifier, wallet) is Ok <==> state.admin == Some(
            verifier,
        ),
        state.admin is Some && state.admin != Some(verifier) ==> state.verify_institution(
            verifier,
            verifier,
            wallet,
        ) == Err::<HealthcareState, Error>(Error::Unauthorized),
        state.admin is None ==> state.verify_institution(verifier, verifier, wallet) == Err::<
            HealthcareState,
            Error,
        >(Error::InvalidAdmin),
        state.verify_institution(verifier, verifier, wallet) matches Ok(next)
            ==> next.get_institution(wallet) is Ok && next.get_institution(
            wallet,
        )->Ok_0.is_verified,
{
}

/// Authorization comes first: a call that fails authorization is refused for
/// that reason even where the institution is not found.
pub proof fn authorization_is_checked_first(
    state: HealthcareState,
    caller: Seq<char>,
    verifier: Seq<char>,
    wallet: Seq<char>,
)
    requires
        caller != verifier || state.admin != Some(verifier),
    ensures
        state.verify_institution(caller, verifier, wallet) is Err,
        state.verify_institution(caller, verifier, wallet)->Err_0 != Error::NotFound,
{
}

/// Once registered, an institution is found ever after, under the name and
/// the license that it had; and once verified it stays verified.
pub proof fn name_license_and_verification_are_kept(
    state: HealthcareState,
    calls: Seq<HealthcareCall>,
    wallet: Seq<char>,
)
    requires
        state.get_institution(wallet) is Ok,
    ensures
        state.run(calls).get_institution(wallet) is Ok,
        state.run(calls).get_institution(wallet)->Ok_0.name == state.get_institution(
            wallet,
        )->Ok_0.name,
        state.run(calls).get_institution(wallet)->Ok_0.license_id == state.get_institution(
            wallet,
        )->Ok_0.license_id,
        state.get_institution(wallet)->Ok_0.is_verified ==> state.run(calls).get_institution(
            wallet,
        )->Ok_0.is_verified,
    decreases calls.len(),
{
    if calls.len() > 0 {
        name_license_and_verification_are_kept(state, calls.drop_last(), wallet);
    }
}

/// A registered institution that updates its metadata reads back the new
/// metadata, and the rest of its profile as it was.
pub proof fn update_replaces_the_metadata(
    state: HealthcareState,
    wallet: Seq<char>,
    metadata: Seq<char>,
)
    requires
        state.get_institution(wallet) is Ok,
    ensures
        state.update_institution(wallet, wallet, metadata) is Ok,
        state.update_institution(wallet, wallet, metadata)->Ok_0.get_institution(wallet) == Ok::<
            InstitutionView,
            Error,
        >(InstitutionView { metadata, ..state.get_institution(wallet)->Ok_0 }),
{
}

} // verus!
