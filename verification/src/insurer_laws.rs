use vstd::prelude::*;
use crate::error::Error;
use crate::insurer::{InsurerFieldView, InsurerState, InsurerView};

verus! {

/// One call of an operation of the insurer registry, with its arguments.
pub enum InsurerCall {
    RegisterInsurer {
        caller: Seq<char>,
        wallet: Seq<char>,
        name: Seq<char>,
        license_id: Seq<char>,
        metadata: Seq<char>,
    },
    ReplaceField { caller: Seq<char>, wallet: Seq<char>, field: InsurerFieldView },
    AddClaimsReviewer { caller: Seq<char>, insurer: Seq<char>, delegate: Seq<char> },
    RemoveClaimsReviewer { caller: Seq<char>, insurer: Seq<char>, delegate: Seq<char> },
}

impl InsurerCall {
    /// Whether the call asks to register `wallet` as an insurer.
    pub open spec fn registers(self, wallet: Seq<char>) -> bool {
        self matches InsurerCall::RegisterInsurer { wallet: subject, .. } && subject == wallet
    }
}

impl InsurerState {
    /// What the call `call` does to this state, or why it is refused.
    pub open spec fn apply(self, call: InsurerCall) -> Result<InsurerState, Error> {
        match call {
            InsurerCall::RegisterInsurer { caller, wallet, name, license_id, metadata } => {
                self.register_insurer(caller, wallet, name, license_id, metadata)
            },
            InsurerCall::ReplaceField { caller, wallet, field } => {
                self.replace_field(caller, wallet, field)
            },
            InsurerCall::AddClaimsReviewer { caller, insurer, delegate } => {
                self.add_claims_reviewer(caller, insurer, delegate)
            },
            InsurerCall::RemoveClaimsReviewer { caller, insurer, delegate } => {
                self.remove_claims_reviewer(caller, insurer, delegate)
            },
        }
    }

    /// The state after the call `call`: the one it leads to, or this one
    /// where the call is refused.
    pub open spec fn after(self, call: InsurerCall) -> InsurerState {
        match self.apply(call) {
            Ok(next) => next,
            Err(_) => self,
        }
    }

    /// The state after the calls `calls`, made one after another.
    pub open spec fn run(self, calls: Seq<InsurerCall>) -> InsurerState
        decreases calls.len(),
    {
        if calls.len() == 0 {
            self
        } else {
            self.run(calls.drop_last()).after(calls.last())
        }
    }

    /// Whether every delegate in office was appointed by a registered
    /// insurer.
    pub open spec fn reviewers_have_insurers(self) -> bool {
        forall|insurer: Seq<char>, delegate: Seq<char>| #[trigger]
            self.reviewers.contains((insurer, delegate)) ==> self.insurers.contains_key(insurer)
    }
}

/// Before anything has happened no insurer is found and nobody handles
/// claims.
pub proof fn nothing_in_the_empty_registry(wallet: Seq<char>, delegate: Seq<char>)
    ensures
        InsurerState::empty().get_insurer(wallet) == Err::<InsurerView, Error>(Error::NotFound),
        !InsurerState::empty().is_authorized_reviewer(wallet, delegate),
        InsurerState::empty().claims_reviewers(wallet) == Set::<Seq<char>>::empty(),
{
    assert(InsurerState::empty().claims_reviewers(wallet) =~= Set::<Seq<char>>::empty());
}

/// An insurer registers once: after `wallet` has asked to be registered,
/// whether that succeeded or not, a second request of its own is refused as
/// `AlreadyExists`, whatever profile it brings.
pub proof fn insurer_registers_once(
    state: InsurerState,
    wallet: Seq<char>,
    name: Seq<char>,
    license_id: Seq<char>,
    metadata: Seq<char>,
    again: InsurerView,
)
    ensures
        state.after(
            InsurerCall::RegisterInsurer { caller: wallet, wallet, name, license_id, metadata },
        ).register_insurer(wallet, wallet, again.name, again.license_id, again.metadata) == Err::<
            InsurerState,
            Error,
        >(Error::AlreadyExists),
{
}

/// An insurer that is not found stays so through every call that is not a
/// request to register that insurer.
pub proof fn not_found_before_registration(
    state: InsurerState,
    calls: Seq<InsurerCall>,
    wallet: Seq<char>,
)
    requires
        state.get_insurer(wallet) is Err,
        forall|i: int| 0 <= i < calls.len() ==> !(#[trigger] calls[i]).registers(wallet),
    ensures
        state.run(calls).get_insurer(wallet) == Err::<InsurerView, Error>(Error::NotFound),
    decreases calls.len(),
{
    if calls.len() > 0 {
        let earlier = calls.drop_last();
        assert forall|i: int| 0 <= i < earlier.len() implies !(#[trigger] earlier[i]).registers(
            wallet,
        ) by {
            assert(earlier[i] == calls[i]);
        }
        not_found_before_registration(state, earlier, wallet);
        assert(!calls[calls.len() - 1].registers(wallet));
    }
}

/// Once registered, an insurer is found ever after, under the name and the
/// license that it had.
pub proof fn name_and_license_are_kept(
    state: InsurerState,
    calls: Seq<InsurerCall>,
    wallet: Seq<char>,
)
    requires
        state.get_insurer(wallet) is Ok,
    ensures
        state.run(calls).get_insurer(wallet) is Ok,
        state.run(calls).get_insurer(wallet)->Ok_0.name == state.get_insurer(wallet)->Ok_0.name,
        state.run(calls).get_insurer(wallet)->Ok_0.license_id == state.get_insurer(
            wallet,
        )->Ok_0.license_id,
    decreases calls.len(),
{
    if calls.len() > 0 {
        name_and_license_are_kept(state, calls.drop_last(), wallet);
    }
}

/// After a registered insurer has asked to appoint `delegate`, `delegate` is
/// in office, whether the appointment was new or was refused as a second
/// one. After the insurer has then removed the delegate, which succeeds,
/// `delegate` is in office no more.
pub proof fn appoint_then_remove(state: InsurerState, insurer: Seq<char>, delegate: Seq<char>)
    requires
        state.get_insurer(insurer) is Ok,
    ensures
        ({
            let appointed = state.after(
                InsurerCall::AddClaimsReviewer { caller: insurer, insurer, delegate },
            );
            &&& appointed.is_authorized_reviewer(insurer, delegate)
            &&& appointed.remove_claims_reviewer(insurer, insurer, delegate) is Ok
            &&& !appointed.remove_claims_reviewer(
                insurer,
                insurer,
                delegate,
            )->Ok_0.is_authorized_reviewer(insurer, delegate)
        }),
{
}

/// An insurer who acts in person is refused exactly thus: who is not
/// registered appoints and removes nobody (`NotFound`); a delegate in office
/// is not appointed again (`AlreadyAuthorized`); one who is not in office is
/// not removed (`NotFound`).
pub proof fn refusals_of_appointment(state: InsurerState, insurer: Seq<char>, delegate: Seq<char>)
    ensures
        state.get_insurer(insurer) is Err ==> state.add_claims_reviewer(insurer, insurer, delegate)
            == Err::<InsurerState, Error>(Error::NotFound),
        state.get_insurer(insurer) is Ok && state.is_authorized_reviewer(insurer, delegate)
            ==> state.add_claims_reviewer(insurer, insurer, delegate) == Err::<
            InsurerState,
            Error,
        >(Error::AlreadyAuthorized),
        !state.is_authorized_reviewer(insurer, delegate) ==> state.remove_claims_reviewer(
            insurer,
            insurer,
            delegate,
        ) == Err::<InsurerState, Error>(Error::NotFound),
{
}

/// From the empty registry on, every delegate in office was appointed by a
/// registered insurer.
pub proof fn reviewers_belong_to_insurers(calls: Seq<InsurerCall>)
    ensures
        InsurerState::empty().run(calls).reviewers_have_insurers(),
    decreases calls.len(),
{
    if calls.len() > 0 {
        reviewers_belong_to_insurers(calls.drop_last());
    }
}

} // verus!
