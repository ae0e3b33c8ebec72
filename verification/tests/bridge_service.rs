use bridge_service::active_swap::ActionOutcome;
use bridge_service::active_swap::ActiveSwapEvent;
use bridge_service::active_swap::ActiveSwapMap;
use bridge_service::active_swap::ActiveSwapMapError;
use bridge_service::active_swap::ContractCallError;
use bridge_service::active_swap::SwapPhase;
use bridge_service::bridge_service::Action;
use bridge_service::bridge_service::BridgeService;
use bridge_service::bridge_service::PollInput;
use bridge_service::events::BridgeContractCounterpartyEvent;
use bridge_service::events::BridgeContractInitiatorEvent;
use bridge_service::events::CEvent;
use bridge_service::events::CWarn;
use bridge_service::events::ContractEvent;
use bridge_service::events::Event;
use bridge_service::events::IEvent;
use bridge_service::events::IWarn;
use bridge_service::types::Amount;
use bridge_service::types::BridgeTransferDetails;
use bridge_service::types::BridgeTransferId;
use bridge_service::types::CounterpartyCompletedDetails;
use bridge_service::types::HashLock;
use bridge_service::types::HashLockPreImage;
use bridge_service::types::InitiatorAddress;
use bridge_service::types::LockDetails;
use bridge_service::types::RecipientAddress;
use bridge_service::types::TimeLock;

type Svc = BridgeService<Vec<u8>, Vec<u8>, Vec<u8>, Vec<u8>>;

fn bytes(s: &str) -> Vec<u8> {
    s.as_bytes().to_vec()
}

fn details(id: &str) -> BridgeTransferDetails<Vec<u8>, Vec<u8>> {
    BridgeTransferDetails {
        bridge_transfer_id: BridgeTransferId(bytes(id)),
        initiator_address: InitiatorAddress(bytes("initiator")),
        recipient_address: RecipientAddress(bytes("recipient")),
        hash_lock: HashLock(bytes("hash_lock")),
        time_lock: TimeLock(100),
        amount: Amount(1000),
    }
}

fn completed_details(id: &str, secret: &str) -> CounterpartyCompletedDetails<Vec<u8>, Vec<u8>> {
    CounterpartyCompletedDetails {
        bridge_transfer_id: BridgeTransferId(bytes(id)),
        initiator_address: InitiatorAddress(bytes("initiator")),
        recipient_address: RecipientAddress(bytes("recipient")),
        hash_lock: HashLock(bytes("hash_lock")),
        secret: HashLockPreImage(bytes(secret)),
        amount: Amount(1000),
    }
}

#[test]
fn test_bridge_service_integration_a_to_b() {
    let mut svc: Svc = BridgeService::new();

    // The source chain reports the initiated transfer.
    let (event, action) = svc.poll_next(Some(PollInput::FromChain1(
        ContractEvent::InitiatorEvent(BridgeContractInitiatorEvent::Initiated(details("tid"))),
    )));
    match event.expect("No event") {
        Event::B1I(IEvent::ContractEvent(BridgeContractInitiatorEvent::Initiated(d))) => {
            assert_eq!(d.bridge_transfer_id.0, bytes("tid"));
            assert_eq!(d.initiator_address.0, bytes("initiator"));
            assert_eq!(d.recipient_address.0, bytes("recipient"));
            assert_eq!(d.hash_lock.0, bytes("hash_lock"));
            assert_eq!(d.time_lock.0, 100);
            assert_eq!(d.amount.0, 1000);
        }
        _ => panic!("Not a B1I event"),
    }
    // The coordinator asks for the lock on the destination chain, with the
    // identifier and hash lock carried through the conversion seam.
    match action.expect("No action") {
        Action::LockOnChain2(lock) => {
            assert_eq!(lock.bridge_transfer_id.0, bytes("tid"));
            assert_eq!(lock.hash_lock.0, bytes("hash_lock"));
            assert_eq!(lock.recipient.0, bytes("recipient"));
            assert_eq!(lock.time_lock.0, 100);
            assert_eq!(lock.amount.0, 1000);
        }
        _ => panic!("Not a lock on the second chain"),
    }

    // The lock call succeeds; nothing externally visible.
    let (event, action) = svc.poll_next(Some(PollInput::ActionOutcomeB1ToB2(
        BridgeTransferId(bytes("tid")),
        ActionOutcome::LockSucceeded,
    )));
    assert!(event.is_none());
    assert!(action.is_none());

    // The destination chain reports the lock; passthrough only.
    let lock_details = LockDetails {
        bridge_transfer_id: BridgeTransferId(bytes("tid")),
        initiator_address: InitiatorAddress(bytes("initiator")),
        recipient_address: RecipientAddress(bytes("recipient")),
        hash_lock: HashLock(bytes("hash_lock")),
        time_lock: TimeLock(100),
        amount: Amount(1000),
    };
    let (event, action) = svc.poll_next(Some(PollInput::FromChain2(
        ContractEvent::CounterpartyEvent(BridgeContractCounterpartyEvent::Locked(lock_details)),
    )));
    match event.expect("No event") {
        Event::B2C(CEvent::ContractEvent(BridgeContractCounterpartyEvent::Locked(d))) => {
            assert_eq!(d.bridge_transfer_id.0, bytes("tid"));
        }
        _ => panic!("Not a B2C event"),
    }
    assert!(action.is_none());

    // The destination lock is claimed, revealing the pre-image; the
    // coordinator asks for the completion on the source chain.
    let (event, action) = svc.poll_next(Some(PollInput::FromChain2(
        ContractEvent::CounterpartyEvent(BridgeContractCounterpartyEvent::Completed(
            completed_details("tid", "hash_lock"),
        )),
    )));
    match event.expect("No event") {
        Event::B2C(CEvent::ContractEvent(BridgeContractCounterpartyEvent::Completed(d))) => {
            assert_eq!(d.secret.0, bytes("hash_lock"));
        }
        _ => panic!("Not a B2C event"),
    }
    match action.expect("complete_bridge_transfer failed") {
        Action::CompleteOnChain1(complete) => {
            assert_eq!(complete.bridge_transfer_id.0, bytes("tid"));
            // The pre-image is forwarded verbatim.
            assert_eq!(complete.secret.0, bytes("hash_lock"));
        }
        _ => panic!("Not a completion on the first chain"),
    }

    // The completion call succeeds; then the source chain confirms, and
    // the swap leaves the registry.
    let (event, action) = svc.poll_next(Some(PollInput::ActionOutcomeB1ToB2(
        BridgeTransferId(bytes("tid")),
        ActionOutcome::CompleteSucceeded,
    )));
    assert!(event.is_none());
    assert!(action.is_none());

    let (event, action) = svc.poll_next(Some(PollInput::FromChain1(
        ContractEvent::InitiatorEvent(BridgeContractInitiatorEvent::Completed(BridgeTransferId(
            bytes("tid"),
        ))),
    )));
    assert!(matches!(
        event,
        Some(Event::B1I(IEvent::ContractEvent(
            BridgeContractInitiatorEvent::Completed(_)
        )))
    ));
    assert!(action.is_none());
    assert!(!svc
        .active_swaps_b1_to_b2
        .already_executing(&BridgeTransferId(bytes("tid"))));
}

#[test]
fn test_duplicate_initiate_warns_once() {
    let mut svc: Svc = BridgeService::new();
    let (event, action) = svc.poll_next(Some(PollInput::FromChain1(
        ContractEvent::InitiatorEvent(BridgeContractInitiatorEvent::Initiated(details("tid"))),
    )));
    assert!(matches!(
        event,
        Some(Event::B1I(IEvent::ContractEvent(
            BridgeContractInitiatorEvent::Initiated(_)
        )))
    ));
    assert!(matches!(action, Some(Action::LockOnChain2(_))));

    // The same transfer reported again: one warning, no second action.
    let (event, action) = svc.poll_next(Some(PollInput::FromChain1(
        ContractEvent::InitiatorEvent(BridgeContractInitiatorEvent::Initiated(details("tid"))),
    )));
    match event.expect("No event") {
        Event::B1I(IEvent::Warn(IWarn::AlreadyPresent(d))) => {
            assert_eq!(d.bridge_transfer_id.0, bytes("tid"));
        }
        _ => panic!("Not an AlreadyPresent warning"),
    }
    assert!(action.is_none());
}

#[test]
fn test_orphan_completion_warns() {
    let mut svc: Svc = BridgeService::new();
    let (event, action) = svc.poll_next(Some(PollInput::FromChain2(
        ContractEvent::CounterpartyEvent(BridgeContractCounterpartyEvent::Completed(
            completed_details("unknown", "hash_lock"),
        )),
    )));
    match event.expect("No event") {
        Event::B2C(CEvent::Warn(CWarn::CannotCompleteUnexistingSwap(d))) => {
            assert_eq!(d.bridge_transfer_id.0, bytes("unknown"));
        }
        _ => panic!("Not a CannotCompleteUnexistingSwap warning"),
    }
    assert!(action.is_none());
}

#[test]
fn test_b2_to_b1_symmetry() {
    let mut svc: Svc = BridgeService::new();

    // Initiated on the second chain drives a lock on the first chain.
    let (event, action) = svc.poll_next(Some(PollInput::FromChain2(
        ContractEvent::InitiatorEvent(BridgeContractInitiatorEvent::Initiated(details("tid2"))),
    )));
    assert!(matches!(
        event,
        Some(Event::B2I(IEvent::ContractEvent(
            BridgeContractInitiatorEvent::Initiated(_)
        )))
    ));
    match action.expect("No action") {
        Action::LockOnChain1(lock) => {
            assert_eq!(lock.bridge_transfer_id.0, bytes("tid2"));
            assert_eq!(lock.hash_lock.0, bytes("hash_lock"));
        }
        _ => panic!("Not a lock on the first chain"),
    }

    // Completion observed on the first chain drives the completion on the
    // second chain.
    let (event, action) = svc.poll_next(Some(PollInput::FromChain1(
        ContractEvent::CounterpartyEvent(BridgeContractCounterpartyEvent::Completed(
            completed_details("tid2", "hash_lock"),
        )),
    )));
    assert!(matches!(
        event,
        Some(Event::B1C(CEvent::ContractEvent(
            BridgeContractCounterpartyEvent::Completed(_)
        )))
    ));
    match action.expect("No action") {
        Action::CompleteOnChain2(complete) => {
            assert_eq!(complete.bridge_transfer_id.0, bytes("tid2"));
            assert_eq!(complete.secret.0, bytes("hash_lock"));
        }
        _ => panic!("Not a completion on the second chain"),
    }
}

#[test]
fn test_lock_failure_keeps_swap() {
    let mut svc: Svc = BridgeService::new();
    let (_, action) = svc.poll_next(Some(PollInput::FromChain1(
        ContractEvent::InitiatorEvent(BridgeContractInitiatorEvent::Initiated(details("tid"))),
    )));
    assert!(matches!(action, Some(Action::LockOnChain2(_))));

    // The lock call fails: the swap stays, in its original phase.
    let (event, action) = svc.poll_next(Some(PollInput::ActionOutcomeB1ToB2(
        BridgeTransferId(bytes("tid")),
        ActionOutcome::LockFailed(ContractCallError::Transport),
    )));
    assert!(event.is_none());
    assert!(action.is_none());
    let id = BridgeTransferId(bytes("tid"));
    assert!(svc.active_swaps_b1_to_b2.already_executing(&id));
    assert_eq!(
        svc.active_swaps_b1_to_b2.swap_phase(&id),
        Some(SwapPhase::LockingOnCounterparty)
    );
}

#[test]
fn test_ordering_two_transfers() {
    let mut svc: Svc = BridgeService::new();
    for id in ["first", "second"] {
        let (event, action) = svc.poll_next(Some(PollInput::FromChain1(
            ContractEvent::InitiatorEvent(BridgeContractInitiatorEvent::Initiated(details(id))),
        )));
        match event.expect("No event") {
            Event::B1I(IEvent::ContractEvent(BridgeContractInitiatorEvent::Initiated(d))) => {
                assert_eq!(d.bridge_transfer_id.0, bytes(id));
            }
            _ => panic!("Not a B1I event"),
        }
        assert!(matches!(action, Some(Action::LockOnChain2(_))));
    }
    assert!(svc
        .active_swaps_b1_to_b2
        .already_executing(&BridgeTransferId(bytes("first"))));
    assert!(svc
        .active_swaps_b1_to_b2
        .already_executing(&BridgeTransferId(bytes("second"))));
}

#[test]
fn test_poll_without_input_is_noop() {
    let mut svc: Svc = BridgeService::new();
    let (event, action) = svc.poll_next(None);
    assert!(event.is_none());
    assert!(action.is_none());
}

#[test]
fn test_map_complete_unknown_swap_is_error() {
    let mut map: ActiveSwapMap<Vec<u8>, Vec<u8>> = ActiveSwapMap::build();
    let r = map.complete_bridge_transfer(&completed_details("ghost", "secret"));
    assert!(matches!(r, Err(ActiveSwapMapError::NonExistingSwap)));
}

#[test]
fn test_map_phase_progression() {
    let mut map: ActiveSwapMap<Vec<u8>, Vec<u8>> = ActiveSwapMap::build();
    let id = BridgeTransferId(bytes("tid"));
    let action: Option<bridge_service::active_swap::LockAction<Vec<u8>>> =
        map.start_bridge_transfer(details("tid"));
    assert!(action.is_some());
    assert_eq!(map.swap_phase(&id), Some(SwapPhase::LockingOnCounterparty));

    let ev = map.handle_action_outcome(&id, ActionOutcome::LockSucceeded);
    assert!(matches!(ev, ActiveSwapEvent::BridgeAssetsLocked(_)));
    assert_eq!(
        map.swap_phase(&id),
        Some(SwapPhase::WaitingForCounterpartyCompletion)
    );

    let r = map.complete_bridge_transfer(&completed_details("tid", "secret"));
    let complete = r.expect("complete_bridge_transfer failed");
    assert_eq!(complete.secret.0, bytes("secret"));
    assert_eq!(map.swap_phase(&id), Some(SwapPhase::CompletingOnInitiator));

    let ev = map.handle_action_outcome(&id, ActionOutcome::CompleteSucceeded);
    assert!(matches!(ev, ActiveSwapEvent::BridgeAssetsCompleted(_)));

    assert!(map.remove_swap(&id));
    assert!(!map.already_executing(&id));
    assert!(!map.remove_swap(&id));
}

#[test]
fn test_map_failure_events() {
    let mut map: ActiveSwapMap<Vec<u8>, Vec<u8>> = ActiveSwapMap::build();
    let id = BridgeTransferId(bytes("tid"));
    let _: Option<bridge_service::active_swap::LockAction<Vec<u8>>> =
        map.start_bridge_transfer(details("tid"));

    let ev = map.handle_action_outcome(&id, ActionOutcome::LockFailed(ContractCallError::Contract));
    assert!(matches!(
        ev,
        ActiveSwapEvent::BridgeAssetsLockingError(ContractCallError::Contract)
    ));
    // The failure does not advance the swap.
    assert_eq!(map.swap_phase(&id), Some(SwapPhase::LockingOnCounterparty));

    let ev = map.handle_action_outcome(
        &id,
        ActionOutcome::CompleteFailed(ContractCallError::Transport),
    );
    assert!(matches!(
        ev,
        ActiveSwapEvent::BridgeAssetsCompletingError(ContractCallError::Transport)
    ));
}

#[test]
fn test_duplicate_start_is_ignored() {
    let mut map: ActiveSwapMap<Vec<u8>, Vec<u8>> = ActiveSwapMap::build();
    let first: Option<bridge_service::active_swap::LockAction<Vec<u8>>> =
        map.start_bridge_transfer(details("tid"));
    assert!(first.is_some());
    let second: Option<bridge_service::active_swap::LockAction<Vec<u8>>> =
        map.start_bridge_transfer(details("tid"));
    assert!(second.is_none());
}

#[test]
fn test_refunded_removes_entry() {
    let mut svc: Svc = BridgeService::new();
    let _ = svc.poll_next(Some(PollInput::FromChain1(ContractEvent::InitiatorEvent(
        BridgeContractInitiatorEvent::Initiated(details("tid")),
    ))));
    let (event, action) = svc.poll_next(Some(PollInput::FromChain1(
        ContractEvent::InitiatorEvent(BridgeContractInitiatorEvent::Refunded(BridgeTransferId(
            bytes("tid"),
        ))),
    )));
    assert!(matches!(
        event,
        Some(Event::B1I(IEvent::ContractEvent(
            BridgeContractInitiatorEvent::Refunded(_)
        )))
    ));
    assert!(action.is_none());
    assert!(!svc
        .active_swaps_b1_to_b2
        .already_executing(&BridgeTransferId(bytes("tid"))));
}

#[test]
fn test_aborted_passes_through() {
    let mut svc: Svc = BridgeService::new();
    let (event, action) = svc.poll_next(Some(PollInput::FromChain2(
        ContractEvent::CounterpartyEvent(BridgeContractCounterpartyEvent::Aborted(
            BridgeTransferId(bytes("tid")),
        )),
    )));
    assert!(matches!(
        event,
        Some(Event::B2C(CEvent::ContractEvent(
            BridgeContractCounterpartyEvent::Aborted(_)
        )))
    ));
    assert!(action.is_none());
}
