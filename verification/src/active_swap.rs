//! The directional registry of in-flight swaps. For one (source, dest)
//! pairing it tracks each swap's phase, decides which contract action the
//! runtime must perform next, and folds the outcome of a performed action
//! back into the swap's state.
//!
//! The registry never performs a contract call itself: starting a swap or
//! completing one returns a description of the call to make, and the
//! runtime reports the call's outcome through [`ActiveSwapMap::handle_action_outcome`].

use vstd::prelude::*;

use crate::types::clone_bytes;
use crate::types::Amount;
use crate::types::BridgeAddressType;
use crate::types::BridgeHashType;
use crate::types::BridgeTransferDetails;
use crate::types::BridgeTransferDetailsView;
use crate::types::BridgeTransferId;
use crate::types::Convert;
use crate::types::CounterpartyCompletedDetails;
use crate::types::HashLock;
use crate::types::HashLockPreImage;
use crate::types::RecipientAddress;
use crate::types::TimeLock;

verus! {

/// Where a swap stands in its lifecycle. Transitions only ever move
/// forward in the order written here.
#[derive(Clone, Copy, PartialEq, Eq, Structural, Debug)]
pub enum SwapPhase {
    /// The lock call on the destination chain has been issued and has not
    /// reported back yet.
    LockingOnCounterparty,
    /// Destination assets are locked; waiting for the claim that reveals
    /// the pre-image.
    WaitingForCounterpartyCompletion,
    /// The completion call on the source chain has been issued.
    CompletingOnInitiator,
    /// The swap finished on both chains.
    Done,
}

/// Order of the phases, for stating that transitions never regress.
pub open spec fn phase_rank(phase: SwapPhase) -> int {
    match phase {
        SwapPhase::LockingOnCounterparty => 0,
        SwapPhase::WaitingForCounterpartyCompletion => 1,
        SwapPhase::CompletingOnInitiator => 2,
        SwapPhase::Done => 3,
    }
}

/// One in-flight swap: the initiator-side description it was created from,
/// its phase, whether a contract call of its own is still outstanding, and
/// how often an action for it has failed.
pub struct ActiveSwap<A, H> {
    pub details: BridgeTransferDetails<A, H>,
    pub phase: SwapPhase,
    pub action_in_flight: bool,
    pub retry_count: u64,
}

/// Mathematical image of one in-flight swap.
pub ghost struct ActiveSwapView {
    pub details: BridgeTransferDetailsView,
    pub phase: SwapPhase,
    pub action_in_flight: bool,
    pub retry_count: u64,
}

impl<A: BridgeAddressType, H: BridgeHashType> View for ActiveSwap<A, H> {
    type V = ActiveSwapView;

    open spec fn view(&self) -> ActiveSwapView {
        ActiveSwapView {
            details: self.details@,
            phase: self.phase,
            action_in_flight: self.action_in_flight,
            retry_count: self.retry_count,
        }
    }
}

/// The lock call the runtime must issue on the destination chain's
/// counterparty contract, with every field already translated into that
/// chain's types.
pub struct LockAction<H> {
    pub bridge_transfer_id: BridgeTransferId<H>,
    pub hash_lock: HashLock<H>,
    pub recipient: RecipientAddress<Vec<u8>>,
    pub time_lock: TimeLock,
    pub amount: Amount,
}

/// Mathematical image of a lock call.
pub ghost struct LockActionView {
    pub bridge_transfer_id: Seq<u8>,
    pub hash_lock: Seq<u8>,
    pub recipient: Seq<u8>,
    pub time_lock: u64,
    pub amount: u64,
}

impl<H: BridgeHashType> View for LockAction<H> {
    type V = LockActionView;

    open spec fn view(&self) -> LockActionView {
        LockActionView {
            bridge_transfer_id: self.bridge_transfer_id.bytes(),
            hash_lock: self.hash_lock.bytes(),
            recipient: self.recipient.0@,
            time_lock: self.time_lock.0,
            amount: self.amount.0,
        }
    }
}

/// The completion call the runtime must issue on the source chain's
/// initiator contract, carrying the revealed pre-image verbatim.
pub struct CompleteAction<H> {
    pub bridge_transfer_id: BridgeTransferId<H>,
    pub secret: HashLockPreImage,
}

/// Mathematical image of a completion call.
pub ghost struct CompleteActionView {
    pub bridge_transfer_id: Seq<u8>,
    pub secret: Seq<u8>,
}

impl<H: BridgeHashType> View for CompleteAction<H> {
    type V = CompleteActionView;

    open spec fn view(&self) -> CompleteActionView {
        CompleteActionView {
            bridge_transfer_id: self.bridge_transfer_id.bytes(),
            secret: self.secret.0@,
        }
    }
}

/// Why a contract call failed: the transport never delivered it, or the
/// contract rejected it.
#[derive(Clone, Copy, PartialEq, Eq, Structural, Debug)]
pub enum ContractCallError {
    Transport,
    Contract,
}

/// How a contract call issued for a swap ended. The runtime reports one of
/// these for every action the registry handed out.
#[derive(Clone, Copy, PartialEq, Eq, Structural, Debug)]
pub enum ActionOutcome {
    LockSucceeded,
    LockFailed(ContractCallError),
    CompleteSucceeded,
    CompleteFailed(ContractCallError),
}

/// Event the registry emits on its own sub-stream when an action outcome
/// has been folded in.
pub enum ActiveSwapEvent<H> {
    BridgeAssetsLocked(BridgeTransferId<H>),
    BridgeAssetsLockingError(ContractCallError),
    BridgeAssetsCompleted(BridgeTransferId<H>),
    BridgeAssetsCompletingError(ContractCallError),
}

/// Failure of [`ActiveSwapMap::complete_bridge_transfer`].
#[derive(Clone, Copy, PartialEq, Eq, Structural, Debug)]
pub enum ActiveSwapMapError {
    /// The completion names a transfer the registry does not track.
    NonExistingSwap,
}

/// Whether some tracked swap carries the given transfer identifier.
pub open spec fn contains_swap(swaps: Seq<ActiveSwapView>, id: Seq<u8>) -> bool {
    exists|i: int| 0 <= i < swaps.len() && #[trigger] swaps[i].details.bridge_transfer_id == id
}

/// Position of the swap carrying the given transfer identifier.
pub open spec fn swap_index(swaps: Seq<ActiveSwapView>, id: Seq<u8>) -> int {
    choose|i: int| 0 <= i < swaps.len() && #[trigger] swaps[i].details.bridge_transfer_id == id
}

/// No two tracked swaps carry the same transfer identifier.
pub open spec fn unique_ids(swaps: Seq<ActiveSwapView>) -> bool {
    forall|i: int, j: int|
        0 <= i < j < swaps.len() ==> #[trigger] swaps[i].details.bridge_transfer_id != #[trigger] swaps[j].details.bridge_transfer_id
}

/// Well-formedness of the registry: identifiers are unique, and no tracked
/// swap is already done (a finished swap leaves the registry).
pub open spec fn swap_map_wf(swaps: Seq<ActiveSwapView>) -> bool {
    &&& unique_ids(swaps)
    &&& forall|i: int| 0 <= i < swaps.len() ==> #[trigger] swaps[i].phase != SwapPhase::Done
}

/// Law: a well-formed registry holds at most one entry per transfer
/// identifier — two positions carrying the same identifier coincide.
pub proof fn lemma_at_most_one_entry(swaps: Seq<ActiveSwapView>, id: Seq<u8>, i: int, j: int)
    requires
        unique_ids(swaps),
        0 <= i < swaps.len(),
        0 <= j < swaps.len(),
        swaps[i].details.bridge_transfer_id == id,
        swaps[j].details.bridge_transfer_id == id,
    ensures
        i == j,
{
    if i < j {
        assert(swaps[i].details.bridge_transfer_id != swaps[j].details.bridge_transfer_id);
    }
    if j < i {
        assert(swaps[j].details.bridge_transfer_id != swaps[i].details.bridge_transfer_id);
    }
}

/// Directional registry of in-flight swaps for one (source, dest) pairing.
pub struct ActiveSwapMap<A, H> {
    entries: Vec<ActiveSwap<A, H>>,
}

impl<A: BridgeAddressType, H: BridgeHashType> View for ActiveSwapMap<A, H> {
    type V = Seq<ActiveSwapView>;

    closed spec fn view(&self) -> Seq<ActiveSwapView> {
        self.entries@.map_values(|e: ActiveSwap<A, H>| e@)
    }
}

impl<A: BridgeAddressType, H: BridgeHashType> ActiveSwapMap<A, H> {
    /// An empty registry.
    pub fn build() -> (r: Self)
        ensures
            r@ == Seq::<ActiveSwapView>::empty(),
            swap_map_wf(r@),
    {
        let r = ActiveSwapMap { entries: Vec::new() };
        proof {
            assert(r@ =~= Seq::<ActiveSwapView>::empty());
        }
        r
    }

    /// Membership test: is this transfer already being driven?
    pub fn already_executing(&self, id: &BridgeTransferId<H>) -> (r: bool)
        ensures
            r == contains_swap(self@, id.bytes()),
    {
        let n = self.entries.len();
        let mut i: usize = 0;
        while i < n
            invariant
                n == self.entries.len(),
                i <= n,
                self@.len() == n,
                forall|k: int|
                    0 <= k < i ==> #[trigger] self@[k].details.bridge_transfer_id != id.bytes(),
            decreases n - i,
        {
            if self.entries[i].details.bridge_transfer_id.0.hash_eq(&id.0) {
                proof {
                    assert(self@[i as int].details.bridge_transfer_id == id.bytes());
                }
                return true;
            }
            proof {
                assert(self@[i as int].details.bridge_transfer_id != id.bytes());
            }
            i = i + 1;
        }
        false
    }

    /// Position of the tracked swap carrying `id`, if any.
    fn find_index(&self, id: &BridgeTransferId<H>) -> (r: Option<usize>)
        ensures
            match r {
                Some(i) => i < self@.len() && self@[i as int].details.bridge_transfer_id
                    == id.bytes(),
                None => !contains_swap(self@, id.bytes()),
            },
    {
        let n = self.entries.len();
        let mut i: usize = 0;
        while i < n
            invariant
                n == self.entries.len(),
                i <= n,
                self@.len() == n,
                forall|k: int|
                    0 <= k < i ==> #[trigger] self@[k].details.bridge_transfer_id != id.bytes(),
            decreases n - i,
        {
            if self.entries[i].details.bridge_transfer_id.0.hash_eq(&id.0) {
                proof {
                    assert(self@[i as int].details.bridge_transfer_id == id.bytes());
                }
                return Some(i);
            }
            proof {
                assert(self@[i as int].details.bridge_transfer_id != id.bytes());
            }
            i = i + 1;
        }
        None
    }

    /// Admit a newly initiated swap: insert an entry for it if and only if
    /// its identifier is not yet tracked, and hand back the lock call to
    /// issue on the destination chain, with the identifier and hash lock
    /// translated through the conversion seam and the recipient and
    /// amounts carried over unchanged.
    pub fn start_bridge_transfer<HT: BridgeHashType>(
        &mut self,
        details: BridgeTransferDetails<A, H>,
    ) -> (r: Option<LockAction<HT>>) where H: Convert<HT>
        requires
            swap_map_wf(old(self)@),
        ensures
            swap_map_wf(final(self)@),
            contains_swap(old(self)@, details@.bridge_transfer_id) ==> {
                &&& final(self)@ == old(self)@
                &&& r is None
            },
            !contains_swap(old(self)@, details@.bridge_transfer_id) ==> {
                &&& final(self)@ == old(self)@.push(
                    ActiveSwapView {
                        details: details@,
                        phase: SwapPhase::LockingOnCounterparty,
                        action_in_flight: true,
                        retry_count: 0,
                    },
                )
                &&& r matches Some(action) && action@ == (LockActionView {
                    bridge_transfer_id: details.bridge_transfer_id.0.spec_convert_bytes(),
                    hash_lock: details.hash_lock.0.spec_convert_bytes(),
                    recipient: details@.recipient_address,
                    time_lock: details@.time_lock,
                    amount: details@.amount,
                })
            },
    {
        if self.already_executing(&details.bridge_transfer_id) {
            return None;
        }
        let action = LockAction {
            bridge_transfer_id: BridgeTransferId(Convert::convert(&details.bridge_transfer_id.0)),
            hash_lock: HashLock(Convert::convert(&details.hash_lock.0)),
            recipient: RecipientAddress(clone_bytes(&details.recipient_address.0)),
            time_lock: details.time_lock,
            amount: details.amount,
        };
        let ghost pre = self@;
        let ghost details_view = details@;
        let entry = ActiveSwap {
            details,
            phase: SwapPhase::LockingOnCounterparty,
            action_in_flight: true,
            retry_count: 0,
        };
        self.entries.push(entry);
        proof {
            assert(self@ =~= pre.push(
                ActiveSwapView {
                    details: details_view,
                    phase: SwapPhase::LockingOnCounterparty,
                    action_in_flight: true,
                    retry_count: 0,
                },
            ));
            assert forall|i: int, j: int| 0 <= i < j < self@.len() implies #[trigger] self@[i].details.bridge_transfer_id != #[trigger] self@[j].details.bridge_transfer_id by {
                if j == self@.len() - 1 {
                    assert(self@[i] == pre[i]);
                    if self@[i].details.bridge_transfer_id == details_view.bridge_transfer_id {
                        assert(contains_swap(pre, details_view.bridge_transfer_id));
                    }
                }
            }
        }
        Some(action)
    }

    /// React to the destination chain's completion of a swap: look the
    /// transfer up under its identifier translated back into this side's
    /// hash type; if unknown, report `NonExistingSwap` and change nothing.
    /// Otherwise move the swap to `CompletingOnInitiator` and hand back
    /// the completion call to issue on the source chain, carrying the
    /// revealed pre-image verbatim.
    pub fn complete_bridge_transfer<AT: BridgeAddressType, HT: BridgeHashType + Convert<H>>(
        &mut self,
        details: &CounterpartyCompletedDetails<AT, HT>,
    ) -> (r: Result<CompleteAction<H>, ActiveSwapMapError>)
        requires
            swap_map_wf(old(self)@),
        ensures
            swap_map_wf(final(self)@),
            !contains_swap(old(self)@, details.bridge_transfer_id.0.spec_convert_bytes()) ==> {
                &&& final(self)@ == old(self)@
                &&& r matches Err(e) && e == ActiveSwapMapError::NonExistingSwap
            },
            contains_swap(old(self)@, details.bridge_transfer_id.0.spec_convert_bytes()) ==> {
                let i = swap_index(old(self)@, details.bridge_transfer_id.0.spec_convert_bytes());
                &&& final(self)@ == old(self)@.update(
                    i,
                    ActiveSwapView {
                        phase: SwapPhase::CompletingOnInitiator,
                        action_in_flight: true,
                        ..old(self)@[i]
                    },
                )
                &&& phase_rank(old(self)@[i].phase) <= phase_rank(final(self)@[i].phase)
                &&& r matches Ok(action) && action@ == (CompleteActionView {
                    bridge_transfer_id: details.bridge_transfer_id.0.spec_convert_bytes(),
                    secret: details@.secret,
                })
            },
    {
        let source_id: BridgeTransferId<H> = BridgeTransferId(
            Convert::convert(&details.bridge_transfer_id.0),
        );
        match self.find_index(&source_id) {
            None => Err(ActiveSwapMapError::NonExistingSwap),
            Some(i) => {
                let ghost pre = self@;
                self.entries[i].phase = SwapPhase::CompletingOnInitiator;
                self.entries[i].action_in_flight = true;
                proof {
                    let key = details.bridge_transfer_id.0.spec_convert_bytes();
                    assert(self@ =~= pre.update(
                        i as int,
                        ActiveSwapView {
                            phase: SwapPhase::CompletingOnInitiator,
                            action_in_flight: true,
                            ..pre[i as int]
                        },
                    ));
                    lemma_at_most_one_entry(pre, key, i as int, swap_index(pre, key));
                }
                Ok(
                    CompleteAction {
                        bridge_transfer_id: source_id,
                        secret: HashLockPreImage(clone_bytes(&details.secret.0)),
                    },
                )
            },
        }
    }

    /// Fold the outcome of a performed contract call back into the swap it
    /// belongs to, and emit the matching sub-stream event. A successful
    /// lock moves the swap forward to waiting; a failure leaves the phase
    /// alone, clears the outstanding-call mark and counts the failure, so
    /// a retry policy can act on it. A swap no longer tracked is left
    /// alone. Phases never move backward.
    pub fn handle_action_outcome(&mut self, id: &BridgeTransferId<H>, outcome: ActionOutcome) -> (
        ev: ActiveSwapEvent<H>)
        requires
            swap_map_wf(old(self)@),
        ensures
            swap_map_wf(final(self)@),
            outcome_post(old(self)@, final(self)@, id.bytes(), outcome),
            match outcome {
                ActionOutcome::LockSucceeded => ev matches ActiveSwapEvent::BridgeAssetsLocked(
                    rid,
                ) && rid.bytes() == id.bytes(),
                ActionOutcome::LockFailed(e) => ev
                    == ActiveSwapEvent::<H>::BridgeAssetsLockingError(e),
                ActionOutcome::CompleteSucceeded => ev
                    matches ActiveSwapEvent::BridgeAssetsCompleted(rid) && rid.bytes()
                    == id.bytes(),
                ActionOutcome::CompleteFailed(e) => ev
                    == ActiveSwapEvent::<H>::BridgeAssetsCompletingError(e),
            },
    {
        let found = self.find_index(id);
        if let Some(i) = found {
            let ghost pre = self@;
            match outcome {
                ActionOutcome::LockSucceeded => {
                    if self.entries[i].phase == SwapPhase::LockingOnCounterparty {
                        self.entries[i].phase = SwapPhase::WaitingForCounterpartyCompletion;
                    }
                },
                ActionOutcome::LockFailed(_) | ActionOutcome::CompleteFailed(_) => {
                    if self.entries[i].retry_count < u64::MAX {
                        let next = self.entries[i].retry_count + 1;
                        self.entries[i].retry_count = next;
                    }
                },
                ActionOutcome::CompleteSucceeded => {},
            }
            self.entries[i].action_in_flight = false;
            proof {
                lemma_at_most_one_entry(pre, id.bytes(), i as int, swap_index(pre, id.bytes()));
                assert forall|k: int| 0 <= k < pre.len() && k != i implies #[trigger] self@[k]
                    == pre[k] by {
                    assert(self@[k] == pre[k]);
                }
                assert forall|a: int, b: int| 0 <= a < b < self@.len() implies #[trigger] self@[
                    a
                ].details.bridge_transfer_id != #[trigger] self@[b].details.bridge_transfer_id by {
                    assert(self@[a].details == pre[a].details);
                    assert(self@[b].details == pre[b].details);
                }
                assert forall|k: int| 0 <= k < self@.len() implies #[trigger] self@[k].phase
                    != SwapPhase::Done by {
                    assert(pre[k].phase != SwapPhase::Done);
                }
            }
        } else {
            proof {
                assert(self@ =~= old(self)@);
            }
        }
        match outcome {
            ActionOutcome::LockSucceeded => ActiveSwapEvent::BridgeAssetsLocked(
                BridgeTransferId(id.0.hash_clone()),
            ),
            ActionOutcome::LockFailed(e) => ActiveSwapEvent::BridgeAssetsLockingError(e),
            ActionOutcome::CompleteSucceeded => ActiveSwapEvent::BridgeAssetsCompleted(
                BridgeTransferId(id.0.hash_clone()),
            ),
            ActionOutcome::CompleteFailed(e) => ActiveSwapEvent::BridgeAssetsCompletingError(e),
        }
    }

    /// Drop the entry for a finished or refunded transfer. Absence is not
    /// an error: an unknown identifier leaves the registry unchanged.
    pub fn remove_swap(&mut self, id: &BridgeTransferId<H>) -> (r: bool)
        requires
            swap_map_wf(old(self)@),
        ensures
            swap_map_wf(final(self)@),
            r == contains_swap(old(self)@, id.bytes()),
            !contains_swap(old(self)@, id.bytes()) ==> final(self)@ == old(self)@,
            contains_swap(old(self)@, id.bytes()) ==> final(self)@ == old(self)@.remove(
                swap_index(old(self)@, id.bytes()),
            ),
            !contains_swap(final(self)@, id.bytes()),
    {
        let found = self.find_index(id);
        match found {
            None => {
                proof {
                    assert(self@ =~= old(self)@);
                }
                false
            },
            Some(i) => {
                let ghost pre = self@;
                let _ = self.entries.remove(i);
                proof {
                    let key = id.bytes();
                    lemma_at_most_one_entry(pre, key, i as int, swap_index(pre, key));
                    assert(self@ =~= pre.remove(i as int));
                    assert forall|k: int| 0 <= k < self@.len() implies #[trigger] self@[
                        k
                    ].details.bridge_transfer_id != key by {
                        if k < i {
                            assert(self@[k] == pre[k]);
                            lemma_at_most_one_entry_absent(pre, key, i as int, k);
                        } else {
                            assert(self@[k] == pre[k + 1]);
                            lemma_at_most_one_entry_absent(pre, key, i as int, k + 1);
                        }
                    }
                }
                true
            },
        }
    }

    /// The phase of the tracked swap with this identifier, if any.
    pub fn swap_phase(&self, id: &BridgeTransferId<H>) -> (r: Option<SwapPhase>)
        requires
            swap_map_wf(self@),
        ensures
            match r {
                Some(phase) => contains_swap(self@, id.bytes()) && phase == self@[swap_index(
                    self@,
                    id.bytes(),
                )].phase,
                None => !contains_swap(self@, id.bytes()),
            },
    {
        match self.find_index(id) {
            None => None,
            Some(i) => {
                proof {
                    lemma_at_most_one_entry(
                        self@,
                        id.bytes(),
                        i as int,
                        swap_index(self@, id.bytes()),
                    );
                }
                Some(self.entries[i].phase)
            },
        }
    }
}

/// Law: in a registry with unique identifiers, every position other than
/// the one found for an identifier carries a different identifier.
pub proof fn lemma_at_most_one_entry_absent(
    swaps: Seq<ActiveSwapView>,
    id: Seq<u8>,
    i: int,
    k: int,
)
    requires
        unique_ids(swaps),
        0 <= i < swaps.len(),
        0 <= k < swaps.len(),
        swaps[i].details.bridge_transfer_id == id,
        k != i,
    ensures
        swaps[k].details.bridge_transfer_id != id,
{
    if swaps[k].details.bridge_transfer_id == id {
        lemma_at_most_one_entry(swaps, id, i, k);
    }
}

/// The phase a swap's entry takes after one action outcome is folded in:
/// only a successful lock on the swap the outcome belongs to moves the
/// phase, from locking to waiting.
pub open spec fn step_phase(phase: SwapPhase, outcome: ActionOutcome, is_target: bool) -> SwapPhase {
    if is_target && outcome == ActionOutcome::LockSucceeded && phase
        == SwapPhase::LockingOnCounterparty {
        SwapPhase::WaitingForCounterpartyCompletion
    } else {
        phase
    }
}

/// Law: folding an action outcome into a swap never moves its phase
/// backward.
pub proof fn lemma_step_phase_monotonic(phase: SwapPhase, outcome: ActionOutcome, is_target: bool)
    ensures
        phase_rank(phase) <= phase_rank(step_phase(phase, outcome, is_target)),
{
}

/// What folding one action outcome does to the registry: the set of swaps
/// and their descriptions stay as they were; only the phase of the swap
/// the outcome belongs to may step forward, and its outstanding-call mark
/// is cleared.
pub open spec fn outcome_post(
    pre: Seq<ActiveSwapView>,
    post: Seq<ActiveSwapView>,
    key: Seq<u8>,
    outcome: ActionOutcome,
) -> bool {
    &&& post.len() == pre.len()
    &&& forall|k: int|
        0 <= k < pre.len() ==> #[trigger] post[k].details == pre[k].details && post[k].phase
            == step_phase(pre[k].phase, outcome, pre[k].details.bridge_transfer_id == key)
            && phase_rank(pre[k].phase) <= phase_rank(post[k].phase)
    &&& !contains_swap(pre, key) ==> post == pre
    &&& contains_swap(pre, key) ==> {
        let i = swap_index(pre, key);
        &&& post[i].action_in_flight == false
        &&& forall|k: int| 0 <= k < pre.len() && k != i ==> #[trigger] post[k] == pre[k]
    }
}

/// The registry after the entry for `key` is dropped, if it was there.
pub open spec fn remove_swap_result(pre: Seq<ActiveSwapView>, key: Seq<u8>) -> Seq<ActiveSwapView> {
    if contains_swap(pre, key) {
        pre.remove(swap_index(pre, key))
    } else {
        pre
    }
}

} // verus!
