//! The event taxonomy: observed on-chain contract events, coordinator
//! warnings, and the merged event type the coordinator emits.

use vstd::prelude::*;

use crate::types::BridgeTransferDetails;
use crate::types::BridgeTransferId;
use crate::types::CounterpartyCompletedDetails;
use crate::types::LockDetails;

verus! {

/// Event reported by a chain observer about its initiator contract.
pub enum BridgeContractInitiatorEvent<A, H> {
    /// A new transfer was opened on the source chain.
    Initiated(BridgeTransferDetails<A, H>),
    /// The transfer was claimed on the source chain with the revealed
    /// pre-image.
    Completed(BridgeTransferId<H>),
    /// The transfer expired and was refunded on the source chain.
    Refunded(BridgeTransferId<H>),
}

/// Event reported by a chain observer about its counterparty contract.
pub enum BridgeContractCounterpartyEvent<A, H> {
    /// Matching assets were locked on the destination chain.
    Locked(LockDetails<A, H>),
    /// The destination lock was claimed, revealing the pre-image.
    Completed(CounterpartyCompletedDetails<A, H>),
    /// The destination lock was aborted.
    Aborted(BridgeTransferId<H>),
}

/// One observed on-chain event, tagged with the contract role it concerns.
pub enum ContractEvent<A, H> {
    InitiatorEvent(BridgeContractInitiatorEvent<A, H>),
    CounterpartyEvent(BridgeContractCounterpartyEvent<A, H>),
}

/// Coordinator warning raised while dispatching an initiator event.
pub enum IWarn<A, H> {
    /// A duplicate `Initiated` arrived for a transfer the registry already
    /// tracks; no new action was started.
    AlreadyPresent(BridgeTransferDetails<A, H>),
}

/// Coordinator warning raised while dispatching a counterparty event.
pub enum CWarn<A, H> {
    /// A counterparty completion arrived for a transfer the registry does
    /// not know; no initiator action was started.
    CannotCompleteUnexistingSwap(CounterpartyCompletedDetails<A, H>),
}

/// Externally visible outcome of dispatching one initiator event.
pub enum IEvent<A, H> {
    /// Passthrough of the observed contract event.
    ContractEvent(BridgeContractInitiatorEvent<A, H>),
    /// A coordinator-level warning.
    Warn(IWarn<A, H>),
}

/// Externally visible outcome of dispatching one counterparty event.
pub enum CEvent<A, H> {
    /// Passthrough of the observed contract event.
    ContractEvent(BridgeContractCounterpartyEvent<A, H>),
    /// A coordinator-level warning.
    Warn(CWarn<A, H>),
}

/// One merged coordinator event: each arm names the chain the event was
/// observed on and the contract role it concerns.
pub enum Event<A1, H1, A2, H2> {
    /// Initiator-side event observed on the first chain.
    B1I(IEvent<A1, H1>),
    /// Counterparty-side event observed on the first chain.
    B1C(CEvent<A1, H1>),
    /// Initiator-side event observed on the second chain.
    B2I(IEvent<A2, H2>),
    /// Counterparty-side event observed on the second chain.
    B2C(CEvent<A2, H2>),
}

} // verus!
