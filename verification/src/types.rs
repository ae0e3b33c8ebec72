//! Value types shared by both sides of a swap, and the capability traits an
//! adapter must implement for its chain's hash and address types.

use vstd::prelude::*;

verus! {

/// A per-chain hash value. The coordinator treats the hash as opaque but
/// requires a canonical byte representation: equality, cloning and the
/// conversions between the two chains are all specified against
/// `hash_bytes`.
pub trait BridgeHashType: Sized {
    /// Canonical byte representation of this hash value.
    spec fn hash_bytes(&self) -> Seq<u8>;

    /// Equality test, faithful to the byte representation.
    fn hash_eq(&self, other: &Self) -> (r: bool)
        ensures
            r == (self.hash_bytes() == other.hash_bytes()),
    ;

    /// A copy carrying the same byte representation.
    fn hash_clone(&self) -> (r: Self)
        ensures
            r.hash_bytes() == self.hash_bytes(),
    ;
}

/// A per-chain address value with a canonical byte representation. Addresses
/// cross the chain boundary as raw bytes, so an adapter's address type must
/// convert to and from bytes.
pub trait BridgeAddressType: Sized {
    /// Canonical byte representation of this address value.
    spec fn addr_bytes(&self) -> Seq<u8>;

    /// A copy carrying the same byte representation.
    fn addr_clone(&self) -> (r: Self)
        ensures
            r.addr_bytes() == self.addr_bytes(),
    ;

    /// The canonical bytes of this address.
    fn to_bytes(&self) -> (r: Vec<u8>)
        ensures
            r@ == self.addr_bytes(),
    ;

    /// The address whose canonical representation is `bytes`.
    fn from_bytes(bytes: Vec<u8>) -> (r: Self)
        ensures
            r.addr_bytes() == bytes@,
    ;
}

/// Cross-chain conversion of a hash value, one seam per ordered pair of
/// chains. The adapter promises that the executable conversion agrees with
/// the mathematical one, stated over canonical byte representations.
pub trait Convert<O: BridgeHashType> {
    /// Byte representation of the converted value, as a mathematical
    /// function of this value.
    spec fn spec_convert_bytes(&self) -> Seq<u8>;

    /// Convert a value of this chain's type into the peer chain's type.
    fn convert(other: &Self) -> (r: O)
        ensures
            r.hash_bytes() == other.spec_convert_bytes(),
    ;
}

/// Derivation of a fresh transfer identifier from external entropy. The
/// caller draws the entropy; the implementation only shapes it into a hash
/// value.
pub trait GenUniqueHash: Sized {
    /// Build a hash value from freshly drawn entropy.
    fn gen_unique_hash(entropy: u64) -> Self;
}

/// Unique per-swap identifier, derived on chain by the initiator contract.
/// Primary key of the swap registry.
pub struct BridgeTransferId<H>(pub H);

/// Address that opened the transfer on the source chain.
pub struct InitiatorAddress<A>(pub A);

/// Address that receives the assets, on whichever chain the surrounding
/// type places it.
pub struct RecipientAddress<A>(pub A);

/// The hash-lock commitment gating the locked assets.
pub struct HashLock<H>(pub H);

/// The secret whose hash equals the hash lock; revealed by the claim on the
/// destination chain and forwarded verbatim to the source chain.
pub struct HashLockPreImage(pub Vec<u8>);

/// Expiry of the locked assets, in seconds or block height; copied across
/// chains unchanged.
#[derive(Clone, Copy, PartialEq, Eq, Structural)]
pub struct TimeLock(pub u64);

/// Amount of locked assets; carried through without arithmetic.
#[derive(Clone, Copy, PartialEq, Eq, Structural)]
pub struct Amount(pub u64);

impl<H: BridgeHashType> BridgeTransferId<H> {
    /// Byte representation of the underlying hash.
    pub open spec fn bytes(&self) -> Seq<u8> {
        self.0.hash_bytes()
    }
}

impl<H: BridgeHashType> HashLock<H> {
    /// Byte representation of the underlying hash.
    pub open spec fn bytes(&self) -> Seq<u8> {
        self.0.hash_bytes()
    }
}

/// Convert a transfer identifier into the peer chain's hash type.
pub fn convert_bridge_transfer_id<H: BridgeHashType, O: Convert<H>>(
    other: BridgeTransferId<O>,
) -> (r: BridgeTransferId<H>)
    ensures
        r.bytes() == other.0.spec_convert_bytes(),
{
    BridgeTransferId(Convert::convert(&other.0))
}

/// Convert a hash lock into the peer chain's hash type.
pub fn convert_hash_lock<H: BridgeHashType, O: Convert<H>>(other: HashLock<O>) -> (r: HashLock<H>)
    ensures
        r.bytes() == other.0.spec_convert_bytes(),
{
    HashLock(Convert::convert(&other.0))
}

/// Two conversion seams are inverses when converting any value across and
/// back restores its byte representation.
pub open spec fn inverse_conversions<H: Convert<O> + BridgeHashType, O: Convert<H> + BridgeHashType>(
) -> bool {
    forall|x: H, y: O|
        #![trigger x.spec_convert_bytes(), y.spec_convert_bytes()]
        y.hash_bytes() == x.spec_convert_bytes() ==> y.spec_convert_bytes() == x.hash_bytes()
}

/// Law: with inverse conversion seams, converting a hash from one chain to
/// the other and back yields the original value (its canonical bytes are
/// restored, and the byte representation is all the coordinator reads of a
/// hash).
pub proof fn lemma_hash_conversion_round_trip<
    H: Convert<O> + BridgeHashType,
    O: Convert<H> + BridgeHashType,
>(h: H, there: O, back: H)
    requires
        inverse_conversions::<H, O>(),
        there.hash_bytes() == h.spec_convert_bytes(),
        back.hash_bytes() == there.spec_convert_bytes(),
    ensures
        back.hash_bytes() == h.hash_bytes(),
{
    assert(there.spec_convert_bytes() == h.hash_bytes());
}

impl<H: GenUniqueHash> GenUniqueHash for BridgeTransferId<H> {
    fn gen_unique_hash(entropy: u64) -> Self {
        BridgeTransferId(H::gen_unique_hash(entropy))
    }
}

impl<H: BridgeHashType> BridgeHashType for BridgeTransferId<H> {
    open spec fn hash_bytes(&self) -> Seq<u8> {
        self.0.hash_bytes()
    }

    fn hash_eq(&self, other: &Self) -> (r: bool)
        ensures
            r == (self.hash_bytes() == other.hash_bytes()),
    {
        self.0.hash_eq(&other.0)
    }

    fn hash_clone(&self) -> (r: Self)
        ensures
            r.hash_bytes() == self.hash_bytes(),
    {
        BridgeTransferId(self.0.hash_clone())
    }
}

impl<H: BridgeHashType + Convert<O>, O: BridgeHashType> Convert<BridgeTransferId<O>> for BridgeTransferId<H> {
    open spec fn spec_convert_bytes(&self) -> Seq<u8> {
        self.0.spec_convert_bytes()
    }

    fn convert(other: &Self) -> (r: BridgeTransferId<O>)
        ensures
            r.hash_bytes() == other.spec_convert_bytes(),
    {
        BridgeTransferId(Convert::convert(&other.0))
    }
}

impl<H> From<H> for BridgeTransferId<H> {
    fn from(hash: H) -> (r: Self) {
        BridgeTransferId(hash)
    }
}

impl<H> vstd::std_specs::convert::FromSpecImpl<H> for BridgeTransferId<H> {
    open spec fn obeys_from_spec() -> bool {
        true
    }

    open spec fn from_spec(hash: H) -> Self {
        BridgeTransferId(hash)
    }
}

/// Full initiator-side description of a swap, as observed on the source
/// chain: the recipient is carried as raw bytes because it lives on the
/// destination chain.
pub struct BridgeTransferDetails<A, H> {
    pub bridge_transfer_id: BridgeTransferId<H>,
    pub initiator_address: InitiatorAddress<A>,
    pub recipient_address: RecipientAddress<Vec<u8>>,
    pub hash_lock: HashLock<H>,
    pub time_lock: TimeLock,
    pub amount: Amount,
}

/// Counterparty-side lock description, as observed on the destination
/// chain: here the initiator is the foreign party and is carried as raw
/// bytes, while the recipient is a native address.
pub struct LockDetails<A, H> {
    pub bridge_transfer_id: BridgeTransferId<H>,
    pub initiator_address: InitiatorAddress<Vec<u8>>,
    pub recipient_address: RecipientAddress<A>,
    pub hash_lock: HashLock<H>,
    pub time_lock: TimeLock,
    pub amount: Amount,
}

/// Lock description extended with the revealed pre-image, as observed on
/// the destination chain's completion event.
pub struct CounterpartyCompletedDetails<A, H> {
    pub bridge_transfer_id: BridgeTransferId<H>,
    pub initiator_address: InitiatorAddress<Vec<u8>>,
    pub recipient_address: RecipientAddress<A>,
    pub hash_lock: HashLock<H>,
    pub secret: HashLockPreImage,
    pub amount: Amount,
}

/// Mathematical image of a swap description: every hash and address reduced
/// to its canonical bytes.
pub ghost struct BridgeTransferDetailsView {
    pub bridge_transfer_id: Seq<u8>,
    pub initiator_address: Seq<u8>,
    pub recipient_address: Seq<u8>,
    pub hash_lock: Seq<u8>,
    pub time_lock: u64,
    pub amount: u64,
}

/// Mathematical image of a counterparty lock description.
pub ghost struct LockDetailsView {
    pub bridge_transfer_id: Seq<u8>,
    pub initiator_address: Seq<u8>,
    pub recipient_address: Seq<u8>,
    pub hash_lock: Seq<u8>,
    pub time_lock: u64,
    pub amount: u64,
}

/// Mathematical image of a completed counterparty transfer.
pub ghost struct CounterpartyCompletedDetailsView {
    pub bridge_transfer_id: Seq<u8>,
    pub initiator_address: Seq<u8>,
    pub recipient_address: Seq<u8>,
    pub hash_lock: Seq<u8>,
    pub secret: Seq<u8>,
    pub amount: u64,
}

impl<A: BridgeAddressType, H: BridgeHashType> View for BridgeTransferDetails<A, H> {
    type V = BridgeTransferDetailsView;

    open spec fn view(&self) -> BridgeTransferDetailsView {
        BridgeTransferDetailsView {
            bridge_transfer_id: self.bridge_transfer_id.bytes(),
            initiator_address: self.initiator_address.0.addr_bytes(),
            recipient_address: self.recipient_address.0@,
            hash_lock: self.hash_lock.bytes(),
            time_lock: self.time_lock.0,
            amount: self.amount.0,
        }
    }
}

impl<A: BridgeAddressType, H: BridgeHashType> View for LockDetails<A, H> {
    type V = LockDetailsView;

    open spec fn view(&self) -> LockDetailsView {
        LockDetailsView {
            bridge_transfer_id: self.bridge_transfer_id.bytes(),
            initiator_address: self.initiator_address.0@,
            recipient_address: self.recipient_address.0.addr_bytes(),
            hash_lock: self.hash_lock.bytes(),
            time_lock: self.time_lock.0,
            amount: self.amount.0,
        }
    }
}

impl<A: BridgeAddressType, H: BridgeHashType> View for CounterpartyCompletedDetails<A, H> {
    type V = CounterpartyCompletedDetailsView;

    open spec fn view(&self) -> CounterpartyCompletedDetailsView {
        CounterpartyCompletedDetailsView {
            bridge_transfer_id: self.bridge_transfer_id.bytes(),
            initiator_address: self.initiator_address.0@,
            recipient_address: self.recipient_address.0.addr_bytes(),
            hash_lock: self.hash_lock.bytes(),
            secret: self.secret.0@,
            amount: self.amount.0,
        }
    }
}

impl<A: BridgeAddressType, H: BridgeHashType> BridgeTransferDetails<A, H> {
    /// A copy with the same mathematical image.
    pub fn clone_details(&self) -> (r: Self)
        ensures
            r@ == self@,
    {
        let r = BridgeTransferDetails {
            bridge_transfer_id: BridgeTransferId(self.bridge_transfer_id.0.hash_clone()),
            initiator_address: InitiatorAddress(self.initiator_address.0.addr_clone()),
            recipient_address: RecipientAddress(clone_bytes(&self.recipient_address.0)),
            hash_lock: HashLock(self.hash_lock.0.hash_clone()),
            time_lock: self.time_lock,
            amount: self.amount,
        };
        proof {
            assert(r@ == self@);
        }
        r
    }
}

/// Byte-for-byte copy of a byte vector.
pub fn clone_bytes(bytes: &Vec<u8>) -> (r: Vec<u8>)
    ensures
        r@ == bytes@,
{
    let mut r: Vec<u8> = Vec::new();
    let mut i: usize = 0;
    while i < bytes.len()
        invariant
            i <= bytes.len(),
            r@ == bytes@.subrange(0, i as int),
        decreases bytes.len() - i,
    {
        r.push(bytes[i]);
        proof {
            assert(r@ =~= bytes@.subrange(0, i + 1 as int));
        }
        i = i + 1;
    }
    proof {
        assert(r@ =~= bytes@);
    }
    r
}

impl<A, H> CounterpartyCompletedDetails<A, H> where A: BridgeAddressType, H: BridgeHashType {
    /// Derive the completed-transfer record from the initiator-side
    /// description and the revealed pre-image, moving each address to the
    /// representation the counterparty side uses.
    pub fn from_bridge_transfer_details(
        bridge_transfer_details: BridgeTransferDetails<A, H>,
        secret: HashLockPreImage,
    ) -> (r: Self)
        ensures
            r@.bridge_transfer_id == bridge_transfer_details@.bridge_transfer_id,
            r@.initiator_address == bridge_transfer_details@.initiator_address,
            r@.recipient_address == bridge_transfer_details@.recipient_address,
            r@.hash_lock == bridge_transfer_details@.hash_lock,
            r@.secret == secret.0@,
            r@.amount == bridge_transfer_details@.amount,
    {
        CounterpartyCompletedDetails {
            bridge_transfer_id: bridge_transfer_details.bridge_transfer_id,
            initiator_address: InitiatorAddress(
                bridge_transfer_details.initiator_address.0.to_bytes(),
            ),
            recipient_address: RecipientAddress(
                A::from_bytes(bridge_transfer_details.recipient_address.0),
            ),
            hash_lock: bridge_transfer_details.hash_lock,
            secret,
            amount: bridge_transfer_details.amount,
        }
    }
}

impl<A: BridgeAddressType, H: BridgeHashType> CounterpartyCompletedDetails<A, H> {
    /// Pair an observed counterparty lock with the revealed pre-image.
    pub fn from_lock_details(lock_details: LockDetails<A, H>, secret: HashLockPreImage) -> (r:
        Self)
        ensures
            r@.bridge_transfer_id == lock_details@.bridge_transfer_id,
            r@.initiator_address == lock_details@.initiator_address,
            r@.recipient_address == lock_details@.recipient_address,
            r@.hash_lock == lock_details@.hash_lock,
            r@.secret == secret.0@,
            r@.amount == lock_details@.amount,
    {
        CounterpartyCompletedDetails {
            bridge_transfer_id: lock_details.bridge_transfer_id,
            initiator_address: lock_details.initiator_address,
            recipient_address: lock_details.recipient_address,
            hash_lock: lock_details.hash_lock,
            secret,
            amount: lock_details.amount,
        }
    }
}

} // verus!
