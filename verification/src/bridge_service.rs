//! The coordinator: one registry of active swaps per direction, and the
//! dispatch rules that turn an observed chain event or a reported action
//! outcome into a state change, at most one externally visible event, and
//! at most one contract call for the runtime to perform.

use vstd::prelude::*;

use crate::active_swap::contains_swap;
use crate::active_swap::outcome_post;
use crate::active_swap::phase_rank;
use crate::active_swap::remove_swap_result;
use crate::active_swap::swap_index;
use crate::active_swap::swap_map_wf;
use crate::active_swap::ActionOutcome;
use crate::active_swap::ActiveSwapMap;
use crate::active_swap::ActiveSwapView;
use crate::active_swap::CompleteAction;
use crate::active_swap::CompleteActionView;
use crate::active_swap::LockAction;
use crate::active_swap::LockActionView;
use crate::active_swap::SwapPhase;
use crate::events::BridgeContractCounterpartyEvent;
use crate::events::BridgeContractInitiatorEvent;
use crate::events::CEvent;
use crate::events::CWarn;
use crate::events::ContractEvent;
use crate::events::Event;
use crate::events::IEvent;
use crate::events::IWarn;
use crate::types::BridgeAddressType;
use crate::types::BridgeHashType;
use crate::types::BridgeTransferId;
use crate::types::Convert;

verus! {

/// What dispatching one initiator-side event must do to the directional
/// registry the event belongs to, and what it must hand back: a duplicate
/// `Initiated` only warns; a fresh one is admitted and answered with the
/// lock call for the destination chain; `Completed` and `Refunded` retire
/// the swap and pass the observation through.
pub open spec fn initiator_dispatch_post<
    A: BridgeAddressType,
    H: BridgeHashType + Convert<HT>,
    HT: BridgeHashType,
>(
    event: BridgeContractInitiatorEvent<A, H>,
    pre: Seq<ActiveSwapView>,
    post: Seq<ActiveSwapView>,
    out_event: Option<IEvent<A, H>>,
    out_action: Option<LockAction<HT>>,
) -> bool {
    match event {
        BridgeContractInitiatorEvent::Initiated(details) => {
            if contains_swap(pre, details@.bridge_transfer_id) {
                &&& post == pre
                &&& out_event == Some(IEvent::Warn(IWarn::AlreadyPresent(details)))
                &&& out_action is None
            } else {
                &&& post == pre.push(
                    ActiveSwapView {
                        details: details@,
                        phase: SwapPhase::LockingOnCounterparty,
                        action_in_flight: true,
                        retry_count: 0,
                    },
                )
                &&& out_event matches Some(IEvent::ContractEvent(
                    BridgeContractInitiatorEvent::Initiated(d),
                )) && d@ == details@
                &&& out_action matches Some(action) && action@ == (LockActionView {
                    bridge_transfer_id: details.bridge_transfer_id.0.spec_convert_bytes(),
                    hash_lock: details.hash_lock.0.spec_convert_bytes(),
                    recipient: details@.recipient_address,
                    time_lock: details@.time_lock,
                    amount: details@.amount,
                })
            }
        },
        BridgeContractInitiatorEvent::Completed(id) => {
            &&& post == remove_swap_result(pre, id.bytes())
            &&& out_event == Some(
                IEvent::ContractEvent(BridgeContractInitiatorEvent::<A, H>::Completed(id)),
            )
            &&& out_action is None
        },
        BridgeContractInitiatorEvent::Refunded(id) => {
            &&& post == remove_swap_result(pre, id.bytes())
            &&& out_event == Some(
                IEvent::ContractEvent(BridgeContractInitiatorEvent::<A, H>::Refunded(id)),
            )
            &&& out_action is None
        },
    }
}

/// What dispatching one counterparty-side event must do to the registry of
/// the direction that targets the observing chain: a destination lock or
/// abort only passes through; a completion of a tracked swap moves it to
/// `CompletingOnInitiator` and is answered with the source-chain
/// completion call carrying the revealed pre-image verbatim; a completion
/// of an unknown swap only warns.
pub open spec fn counterparty_dispatch_post<
    H: BridgeHashType,
    AT: BridgeAddressType,
    HT: BridgeHashType + Convert<H>,
>(
    event: BridgeContractCounterpartyEvent<AT, HT>,
    pre: Seq<ActiveSwapView>,
    post: Seq<ActiveSwapView>,
    out_event: Option<CEvent<AT, HT>>,
    out_action: Option<CompleteAction<H>>,
) -> bool {
    match event {
        BridgeContractCounterpartyEvent::Locked(details) => {
            &&& post == pre
            &&& out_event == Some(
                CEvent::ContractEvent(BridgeContractCounterpartyEvent::Locked(details)),
            )
            &&& out_action is None
        },
        BridgeContractCounterpartyEvent::Completed(details) => {
            let key = details.bridge_transfer_id.0.spec_convert_bytes();
            if contains_swap(pre, key) {
                &&& post == pre.update(
                    swap_index(pre, key),
                    ActiveSwapView {
                        phase: SwapPhase::CompletingOnInitiator,
                        action_in_flight: true,
                        ..pre[swap_index(pre, key)]
                    },
                )
                &&& out_event == Some(
                    CEvent::ContractEvent(BridgeContractCounterpartyEvent::Completed(details)),
                )
                &&& out_action matches Some(action) && action@ == (CompleteActionView {
                    bridge_transfer_id: key,
                    secret: details@.secret,
                })
            } else {
                &&& post == pre
                &&& out_event == Some(CEvent::Warn(CWarn::CannotCompleteUnexistingSwap(details)))
                &&& out_action is None
            }
        },
        BridgeContractCounterpartyEvent::Aborted(id) => {
            &&& post == pre
            &&& out_event == Some(
                CEvent::ContractEvent(BridgeContractCounterpartyEvent::<AT, HT>::Aborted(id)),
            )
            &&& out_action is None
        },
    }
}

/// Dispatch one event observed on a source chain's initiator contract
/// into that direction's registry. Returns the externally visible event
/// and, for a fresh `Initiated`, the lock call to issue on the destination
/// chain.
pub fn handle_initiator_event<
    A: BridgeAddressType,
    H: BridgeHashType + Convert<HT>,
    HT: BridgeHashType,
>(
    initiator_event: BridgeContractInitiatorEvent<A, H>,
    active_swaps: &mut ActiveSwapMap<A, H>,
) -> (r: (Option<IEvent<A, H>>, Option<LockAction<HT>>))
    requires
        swap_map_wf(old(active_swaps)@),
    ensures
        swap_map_wf(final(active_swaps)@),
        initiator_dispatch_post(
            initiator_event,
            old(active_swaps)@,
            final(active_swaps)@,
            r.0,
            r.1,
        ),
{
    match initiator_event {
        BridgeContractInitiatorEvent::Initiated(details) => {
            if active_swaps.already_executing(&details.bridge_transfer_id) {
                return (Some(IEvent::Warn(IWarn::AlreadyPresent(details))), None);
            }
            let copy = details.clone_details();
            match active_swaps.start_bridge_transfer(details) {
                Some(action) => (
                    Some(IEvent::ContractEvent(BridgeContractInitiatorEvent::Initiated(copy))),
                    Some(action),
                ),
                None => unreached(),
            }
        },
        BridgeContractInitiatorEvent::Completed(id) => {
            let _ = active_swaps.remove_swap(&id);
            (Some(IEvent::ContractEvent(BridgeContractInitiatorEvent::Completed(id))), None)
        },
        BridgeContractInitiatorEvent::Refunded(id) => {
            let _ = active_swaps.remove_swap(&id);
            (Some(IEvent::ContractEvent(BridgeContractInitiatorEvent::Refunded(id))), None)
        },
    }
}

/// Dispatch one event observed on a destination chain's counterparty
/// contract into the registry of the direction that targets it. Returns
/// the externally visible event and, for the completion of a tracked
/// swap, the completion call to issue on the source chain.
pub fn handle_counterparty_event<
    A: BridgeAddressType,
    H: BridgeHashType,
    AT: BridgeAddressType,
    HT: BridgeHashType + Convert<H>,
>(
    event: BridgeContractCounterpartyEvent<AT, HT>,
    active_swaps: &mut ActiveSwapMap<A, H>,
) -> (r: (Option<CEvent<AT, HT>>, Option<CompleteAction<H>>))
    requires
        swap_map_wf(old(active_swaps)@),
    ensures
        swap_map_wf(final(active_swaps)@),
        counterparty_dispatch_post(event, old(active_swaps)@, final(active_swaps)@, r.0, r.1),
{
    match event {
        BridgeContractCounterpartyEvent::Locked(details) => (
            Some(CEvent::ContractEvent(BridgeContractCounterpartyEvent::Locked(details))),
            None,
        ),
        BridgeContractCounterpartyEvent::Completed(details) => {
            match active_swaps.complete_bridge_transfer(&details) {
                Ok(action) => (
                    Some(
                        CEvent::ContractEvent(BridgeContractCounterpartyEvent::Completed(details)),
                    ),
                    Some(action),
                ),
                Err(_) => (
                    Some(CEvent::Warn(CWarn::CannotCompleteUnexistingSwap(details))),
                    None,
                ),
            }
        },
        BridgeContractCounterpartyEvent::Aborted(id) => (
            Some(CEvent::ContractEvent(BridgeContractCounterpartyEvent::Aborted(id))),
            None,
        ),
    }
}

/// One item of input for a poll step: either the reported outcome of a
/// contract call that a registry handed out earlier, or an event observed
/// on one of the two chains. The runtime polls its sources in exactly this
/// order, so action outcomes drain before new observations start actions.
pub enum PollInput<A1, H1, A2, H2> {
    /// Outcome of an action for a swap from the first to the second chain.
    ActionOutcomeB1ToB2(BridgeTransferId<H1>, ActionOutcome),
    /// Outcome of an action for a swap from the second to the first chain.
    ActionOutcomeB2ToB1(BridgeTransferId<H2>, ActionOutcome),
    /// An event observed on the first chain.
    FromChain1(ContractEvent<A1, H1>),
    /// An event observed on the second chain.
    FromChain2(ContractEvent<A2, H2>),
}

/// A contract call the runtime must perform on behalf of the coordinator.
pub enum Action<H1, H2> {
    /// Lock on the first chain's counterparty contract.
    LockOnChain1(LockAction<H1>),
    /// Lock on the second chain's counterparty contract.
    LockOnChain2(LockAction<H2>),
    /// Complete on the first chain's initiator contract.
    CompleteOnChain1(CompleteAction<H1>),
    /// Complete on the second chain's initiator contract.
    CompleteOnChain2(CompleteAction<H2>),
}

/// The initiator-side payload of a merged event from the first chain.
pub open spec fn event_as_b1i<A1, H1, A2, H2>(e: Option<Event<A1, H1, A2, H2>>) -> Option<
    IEvent<A1, H1>,
> {
    match e {
        Some(Event::B1I(ie)) => Some(ie),
        _ => None,
    }
}

/// The counterparty-side payload of a merged event from the first chain.
pub open spec fn event_as_b1c<A1, H1, A2, H2>(e: Option<Event<A1, H1, A2, H2>>) -> Option<
    CEvent<A1, H1>,
> {
    match e {
        Some(Event::B1C(ce)) => Some(ce),
        _ => None,
    }
}

/// The initiator-side payload of a merged event from the second chain.
pub open spec fn event_as_b2i<A1, H1, A2, H2>(e: Option<Event<A1, H1, A2, H2>>) -> Option<
    IEvent<A2, H2>,
> {
    match e {
        Some(Event::B2I(ie)) => Some(ie),
        _ => None,
    }
}

/// The counterparty-side payload of a merged event from the second chain.
pub open spec fn event_as_b2c<A1, H1, A2, H2>(e: Option<Event<A1, H1, A2, H2>>) -> Option<
    CEvent<A2, H2>,
> {
    match e {
        Some(Event::B2C(ce)) => Some(ce),
        _ => None,
    }
}

/// The lock call on the first chain carried by an action, if that is what
/// the action is.
pub open spec fn action_as_lock1<H1, H2>(a: Option<Action<H1, H2>>) -> Option<LockAction<H1>> {
    match a {
        Some(Action::LockOnChain1(l)) => Some(l),
        _ => None,
    }
}

/// The lock call on the second chain carried by an action, if that is
/// what the action is.
pub open spec fn action_as_lock2<H1, H2>(a: Option<Action<H1, H2>>) -> Option<LockAction<H2>> {
    match a {
        Some(Action::LockOnChain2(l)) => Some(l),
        _ => None,
    }
}

/// The completion call on the first chain carried by an action, if that
/// is what the action is.
pub open spec fn action_as_complete1<H1, H2>(a: Option<Action<H1, H2>>) -> Option<
    CompleteAction<H1>,
> {
    match a {
        Some(Action::CompleteOnChain1(c)) => Some(c),
        _ => None,
    }
}

/// The completion call on the second chain carried by an action, if that
/// is what the action is.
pub open spec fn action_as_complete2<H1, H2>(a: Option<Action<H1, H2>>) -> Option<
    CompleteAction<H2>,
> {
    match a {
        Some(Action::CompleteOnChain2(c)) => Some(c),
        _ => None,
    }
}

/// Law: dispatching one initiator-side event never rewinds a swap. Any
/// transfer tracked both before and after the step keeps its description,
/// and its phase does not move backward.
pub proof fn lemma_initiator_dispatch_preserves_progress<
    A: BridgeAddressType,
    H: BridgeHashType + Convert<HT>,
    HT: BridgeHashType,
>(
    event: BridgeContractInitiatorEvent<A, H>,
    pre: Seq<ActiveSwapView>,
    post: Seq<ActiveSwapView>,
    out_event: Option<IEvent<A, H>>,
    out_action: Option<LockAction<HT>>,
    id: Seq<u8>,
)
    requires
        swap_map_wf(pre),
        initiator_dispatch_post(event, pre, post, out_event, out_action),
        contains_swap(pre, id),
        contains_swap(post, id),
    ensures
        post[swap_index(post, id)].details == pre[swap_index(pre, id)].details,
        phase_rank(pre[swap_index(pre, id)].phase) <= phase_rank(
            post[swap_index(post, id)].phase,
        ),
{
    let k = swap_index(pre, id);
    let j = swap_index(post, id);
    match event {
        BridgeContractInitiatorEvent::Initiated(details) => {
            if contains_swap(pre, details@.bridge_transfer_id) {
                crate::active_swap::lemma_at_most_one_entry(pre, id, k, j);
            } else {
                if j < pre.len() {
                    assert(post[j] == pre[j]);
                    crate::active_swap::lemma_at_most_one_entry(pre, id, k, j);
                } else {
                    assert(post[j].details == details@);
                    assert(pre[k].details.bridge_transfer_id == id);
                    assert(contains_swap(pre, details@.bridge_transfer_id));
                }
            }
        },
        BridgeContractInitiatorEvent::Completed(removed_id) => {
            lemma_progress_after_removal(pre, post, removed_id.bytes(), id, k, j);
        },
        BridgeContractInitiatorEvent::Refunded(removed_id) => {
            lemma_progress_after_removal(pre, post, removed_id.bytes(), id, k, j);
        },
    }
}

/// Law: retiring one transfer leaves every other tracked swap exactly as
/// it was.
proof fn lemma_progress_after_removal(
    pre: Seq<ActiveSwapView>,
    post: Seq<ActiveSwapView>,
    removed: Seq<u8>,
    id: Seq<u8>,
    k: int,
    j: int,
)
    requires
        swap_map_wf(pre),
        post == remove_swap_result(pre, removed),
        contains_swap(pre, id),
        contains_swap(post, id),
        k == swap_index(pre, id),
        j == swap_index(post, id),
    ensures
        post[j] == pre[k],
{
    if contains_swap(pre, removed) {
        let r = swap_index(pre, removed);
        if j < r {
            assert(post[j] == pre[j]);
            crate::active_swap::lemma_at_most_one_entry(pre, id, k, j);
        } else {
            assert(post[j] == pre[j + 1]);
            crate::active_swap::lemma_at_most_one_entry(pre, id, k, j + 1);
        }
    } else {
        crate::active_swap::lemma_at_most_one_entry(pre, id, k, j);
    }
}

/// Law: dispatching one counterparty-side event never rewinds a swap.
/// Every transfer tracked before the step is still tracked after it with
/// the same description, and its phase does not move backward.
pub proof fn lemma_counterparty_dispatch_preserves_progress<
    H: BridgeHashType,
    AT: BridgeAddressType,
    HT: BridgeHashType + Convert<H>,
>(
    event: BridgeContractCounterpartyEvent<AT, HT>,
    pre: Seq<ActiveSwapView>,
    post: Seq<ActiveSwapView>,
    out_event: Option<CEvent<AT, HT>>,
    out_action: Option<CompleteAction<H>>,
    id: Seq<u8>,
)
    requires
        swap_map_wf(pre),
        counterparty_dispatch_post(event, pre, post, out_event, out_action),
        contains_swap(pre, id),
    ensures
        contains_swap(post, id),
        post[swap_index(post, id)].details == pre[swap_index(pre, id)].details,
        phase_rank(pre[swap_index(pre, id)].phase) <= phase_rank(
            post[swap_index(post, id)].phase,
        ),
{
    let k = swap_index(pre, id);
    match event {
        BridgeContractCounterpartyEvent::Locked(_) => {
        },
        BridgeContractCounterpartyEvent::Completed(details) => {
            let key = details.bridge_transfer_id.0.spec_convert_bytes();
            if contains_swap(pre, key) {
                let i = swap_index(pre, key);
                assert(post[i].details == pre[i].details);
                assert(post[k].details.bridge_transfer_id == id);
                assert(contains_swap(post, id));
                let j = swap_index(post, id);
                assert(post[j].details.bridge_transfer_id == id);
                assert(pre[j].details.bridge_transfer_id == id);
                crate::active_swap::lemma_at_most_one_entry(pre, id, k, j);
                if k == i {
                    assert(pre[k].phase != SwapPhase::Done);
                    assert(phase_rank(pre[k].phase) <= 2);
                }
            }
        },
        BridgeContractCounterpartyEvent::Aborted(_) => {
        },
    }
}

/// The coordinator for one pair of chains: a registry of active swaps per
/// direction. The chain adapters themselves — observers and contract
/// handles — live with the runtime, which feeds observations in and
/// carries actions out.
pub struct BridgeService<A1, H1, A2, H2> {
    pub active_swaps_b1_to_b2: ActiveSwapMap<A1, H1>,
    pub active_swaps_b2_to_b1: ActiveSwapMap<A2, H2>,
}

impl<
    A1: BridgeAddressType,
    H1: BridgeHashType + Convert<H2>,
    A2: BridgeAddressType,
    H2: BridgeHashType + Convert<H1>,
> BridgeService<A1, H1, A2, H2> {
    /// Both directional registries are well-formed.
    pub open spec fn wf(self) -> bool {
        &&& swap_map_wf(self.active_swaps_b1_to_b2@)
        &&& swap_map_wf(self.active_swaps_b2_to_b1@)
    }

    /// A coordinator tracking no swaps in either direction.
    pub fn new() -> (r: Self)
        ensures
            r.wf(),
            r.active_swaps_b1_to_b2@ == Seq::<ActiveSwapView>::empty(),
            r.active_swaps_b2_to_b1@ == Seq::<ActiveSwapView>::empty(),
    {
        BridgeService {
            active_swaps_b1_to_b2: ActiveSwapMap::build(),
            active_swaps_b2_to_b1: ActiveSwapMap::build(),
        }
    }

    /// Advance the coordinator by one poll step. `input` is whatever the
    /// highest-priority ready source yielded, or nothing if no source was
    /// ready; a step without input changes nothing. Each step touches the
    /// one registry the input concerns, emits at most one externally
    /// visible event, and asks for at most one contract call.
    pub fn poll_next(&mut self, input: Option<PollInput<A1, H1, A2, H2>>) -> (r: (
        Option<Event<A1, H1, A2, H2>>,
        Option<Action<H1, H2>>,
    ))
        requires
            old(self).wf(),
        ensures
            final(self).wf(),
            input is None ==> *final(self) == *old(self) && r.0 is None && r.1 is None,
            match input {
                None => true,
                Some(PollInput::ActionOutcomeB1ToB2(id, oc)) => {
                    &&& final(self).active_swaps_b2_to_b1@ == old(self).active_swaps_b2_to_b1@
                    &&& outcome_post(
                        old(self).active_swaps_b1_to_b2@,
                        final(self).active_swaps_b1_to_b2@,
                        id.bytes(),
                        oc,
                    )
                    &&& r.0 is None
                    &&& r.1 is None
                },
                Some(PollInput::ActionOutcomeB2ToB1(id, oc)) => {
                    &&& final(self).active_swaps_b1_to_b2@ == old(self).active_swaps_b1_to_b2@
                    &&& outcome_post(
                        old(self).active_swaps_b2_to_b1@,
                        final(self).active_swaps_b2_to_b1@,
                        id.bytes(),
                        oc,
                    )
                    &&& r.0 is None
                    &&& r.1 is None
                },
                Some(PollInput::FromChain1(contract_event)) => match contract_event {
                    ContractEvent::InitiatorEvent(ev) => {
                        &&& final(self).active_swaps_b2_to_b1@ == old(self).active_swaps_b2_to_b1@
                        &&& r.0 matches Some(Event::B1I(_))
                        &&& (r.1 is None || r.1 matches Some(Action::LockOnChain2(_)))
                        &&& initiator_dispatch_post(
                            ev,
                            old(self).active_swaps_b1_to_b2@,
                            final(self).active_swaps_b1_to_b2@,
                            event_as_b1i(r.0),
                            action_as_lock2(r.1),
                        )
                    },
                    ContractEvent::CounterpartyEvent(ev) => {
                        &&& final(self).active_swaps_b1_to_b2@ == old(self).active_swaps_b1_to_b2@
                        &&& r.0 matches Some(Event::B1C(_))
                        &&& (r.1 is None || r.1 matches Some(Action::CompleteOnChain2(_)))
                        &&& counterparty_dispatch_post(
                            ev,
                            old(self).active_swaps_b2_to_b1@,
                            final(self).active_swaps_b2_to_b1@,
                            event_as_b1c(r.0),
                            action_as_complete2(r.1),
                        )
                    },
                },
                Some(PollInput::FromChain2(contract_event)) => match contract_event {
                    ContractEvent::InitiatorEvent(ev) => {
                        &&& final(self).active_swaps_b1_to_b2@ == old(self).active_swaps_b1_to_b2@
                        &&& r.0 matches Some(Event::B2I(_))
                        &&& (r.1 is None || r.1 matches Some(Action::LockOnChain1(_)))
                        &&& initiator_dispatch_post(
                            ev,
                            old(self).active_swaps_b2_to_b1@,
                            final(self).active_swaps_b2_to_b1@,
                            event_as_b2i(r.0),
                            action_as_lock1(r.1),
                        )
                    },
                    ContractEvent::CounterpartyEvent(ev) => {
                        &&& final(self).active_swaps_b2_to_b1@ == old(self).active_swaps_b2_to_b1@
                        &&& r.0 matches Some(Event::B2C(_))
                        &&& (r.1 is None || r.1 matches Some(Action::CompleteOnChain1(_)))
                        &&& counterparty_dispatch_post(
                            ev,
                            old(self).active_swaps_b1_to_b2@,
                            final(self).active_swaps_b1_to_b2@,
                            event_as_b2c(r.0),
                            action_as_complete1(r.1),
                        )
                    },
                },
            },
    {
        match input {
            None => (None, None),
            Some(PollInput::ActionOutcomeB1ToB2(id, oc)) => {
                let _ = self.active_swaps_b1_to_b2.handle_action_outcome(&id, oc);
                (None, None)
            },
            Some(PollInput::ActionOutcomeB2ToB1(id, oc)) => {
                let _ = self.active_swaps_b2_to_b1.handle_action_outcome(&id, oc);
                (None, None)
            },
            Some(PollInput::FromChain1(contract_event)) => match contract_event {
                ContractEvent::InitiatorEvent(ev) => {
                    let (oe, oa) = handle_initiator_event::<A1, H1, H2>(
                        ev,
                        &mut self.active_swaps_b1_to_b2,
                    );
                    let wrapped_event = match oe {
                        Some(ie) => Some(Event::B1I(ie)),
                        None => None,
                    };
                    let wrapped_action = match oa {
                        Some(a) => Some(Action::LockOnChain2(a)),
                        None => None,
                    };
                    (wrapped_event, wrapped_action)
                },
                ContractEvent::CounterpartyEvent(ev) => {
                    let (oe, oa) = handle_counterparty_event::<A2, H2, A1, H1>(
                        ev,
                        &mut self.active_swaps_b2_to_b1,
                    );
                    let wrapped_event = match oe {
                        Some(ce) => Some(Event::B1C(ce)),
                        None => None,
                    };
                    let wrapped_action = match oa {
                        Some(a) => Some(Action::CompleteOnChain2(a)),
                        None => None,
                    };
                    (wrapped_event, wrapped_action)
                },
            },
            Some(PollInput::FromChain2(contract_event)) => match contract_event {
                ContractEvent::InitiatorEvent(ev) => {
                    let (oe, oa) = handle_initiator_event::<A2, H2, H1>(
                        ev,
                        &mut self.active_swaps_b2_to_b1,
                    );
                    let wrapped_event = match oe {
                        Some(ie) => Some(Event::B2I(ie)),
                        None => None,
                    };
                    let wrapped_action = match oa {
                        Some(a) => Some(Action::LockOnChain1(a)),
                        None => None,
                    };
                    (wrapped_event, wrapped_action)
                },
                ContractEvent::CounterpartyEvent(ev) => {
                    let (oe, oa) = handle_counterparty_event::<A1, H1, A2, H2>(
                        ev,
                        &mut self.active_swaps_b1_to_b2,
                    );
                    let wrapped_event = match oe {
                        Some(ce) => Some(Event::B2C(ce)),
                        None => None,
                    };
                    let wrapped_action = match oa {
                        Some(a) => Some(Action::CompleteOnChain1(a)),
                        None => None,
                    };
                    (wrapped_event, wrapped_action)
                },
            },
        }
    }
}

} // verus!
