use bridge_service::byte_chain::bytes_eq;
use bridge_service::types::BridgeAddressType;
use bridge_service::types::convert_bridge_transfer_id;
use bridge_service::types::convert_hash_lock;
use bridge_service::types::Amount;
use bridge_service::types::BridgeTransferDetails;
use bridge_service::types::BridgeTransferId;
use bridge_service::types::CounterpartyCompletedDetails;
use bridge_service::types::GenUniqueHash;
use bridge_service::types::HashLock;
use bridge_service::types::HashLockPreImage;
use bridge_service::types::InitiatorAddress;
use bridge_service::types::LockDetails;
use bridge_service::types::RecipientAddress;
use bridge_service::types::TimeLock;

fn bytes(s: &str) -> Vec<u8> {
    s.as_bytes().to_vec()
}

#[test]
fn test_convert_round_trip() {
    // The byte-string chains convert by identity, so one round trip must
    // restore the original bytes.
    let id: BridgeTransferId<Vec<u8>> = BridgeTransferId(bytes("tid"));
    let there: BridgeTransferId<Vec<u8>> = convert_bridge_transfer_id(id);
    let back: BridgeTransferId<Vec<u8>> = convert_bridge_transfer_id(there);
    assert_eq!(back.0, bytes("tid"));

    let lock: HashLock<Vec<u8>> = HashLock(bytes("hash_lock"));
    let there: HashLock<Vec<u8>> = convert_hash_lock(lock);
    let back: HashLock<Vec<u8>> = convert_hash_lock(there);
    assert_eq!(back.0, bytes("hash_lock"));
}

#[test]
fn test_address_bytes_round_trip() {
    let addr = bytes("recipient");
    let there = addr.to_bytes();
    let back = <Vec<u8> as BridgeAddressType>::from_bytes(there);
    assert_eq!(back, addr);
}

#[test]
fn test_bytes_eq() {
    assert!(bytes_eq(&bytes("abc"), &bytes("abc")));
    assert!(!bytes_eq(&bytes("abc"), &bytes("abd")));
    assert!(!bytes_eq(&bytes("abc"), &bytes("ab")));
    assert!(bytes_eq(&bytes(""), &bytes("")));
}

#[test]
fn test_from_bridge_transfer_details() {
    let details = BridgeTransferDetails {
        bridge_transfer_id: BridgeTransferId(bytes("tid")),
        initiator_address: InitiatorAddress(bytes("initiator")),
        recipient_address: RecipientAddress(bytes("recipient")),
        hash_lock: HashLock(bytes("hash_lock")),
        time_lock: TimeLock(100),
        amount: Amount(1000),
    };
    let completed: CounterpartyCompletedDetails<Vec<u8>, Vec<u8>> =
        CounterpartyCompletedDetails::from_bridge_transfer_details(
            details,
            HashLockPreImage(bytes("secret")),
        );
    assert_eq!(completed.bridge_transfer_id.0, bytes("tid"));
    assert_eq!(completed.initiator_address.0, bytes("initiator"));
    assert_eq!(completed.recipient_address.0, bytes("recipient"));
    assert_eq!(completed.hash_lock.0, bytes("hash_lock"));
    assert_eq!(completed.secret.0, bytes("secret"));
    assert_eq!(completed.amount.0, 1000);
}

#[test]
fn test_from_lock_details() {
    let lock_details = LockDetails {
        bridge_transfer_id: BridgeTransferId(bytes("tid")),
        initiator_address: InitiatorAddress(bytes("initiator")),
        recipient_address: RecipientAddress(bytes("recipient")),
        hash_lock: HashLock(bytes("hash_lock")),
        time_lock: TimeLock(100),
        amount: Amount(1000),
    };
    let completed: CounterpartyCompletedDetails<Vec<u8>, Vec<u8>> =
        CounterpartyCompletedDetails::from_lock_details(
            lock_details,
            HashLockPreImage(bytes("secret")),
        );
    assert_eq!(completed.bridge_transfer_id.0, bytes("tid"));
    assert_eq!(completed.initiator_address.0, bytes("initiator"));
    assert_eq!(completed.recipient_address.0, bytes("recipient"));
    assert_eq!(completed.hash_lock.0, bytes("hash_lock"));
    assert_eq!(completed.secret.0, bytes("secret"));
    assert_eq!(completed.amount.0, 1000);
}

#[test]
fn test_gen_unique_hash_shapes_entropy() {
    let id: BridgeTransferId<Vec<u8>> = BridgeTransferId::gen_unique_hash(0x0102030405060708);
    // Least significant byte first, eight bytes in all.
    assert_eq!(id.0, vec![0x08, 0x07, 0x06, 0x05, 0x04, 0x03, 0x02, 0x01]);
    let zero: Vec<u8> = Vec::gen_unique_hash(0);
    assert_eq!(zero, vec![0; 8]);
}
