//! A reference chain representation whose hashes and addresses are raw byte
//! strings. Adapters for real chains provide their own types; this one
//! exercises the coordinator end to end and serves the tests.

use vstd::prelude::*;

use crate::types::clone_bytes;
use crate::types::BridgeAddressType;
use crate::types::BridgeHashType;
use crate::types::Convert;
use crate::types::GenUniqueHash;

verus! {

/// Byte-for-byte equality of two byte vectors.
pub fn bytes_eq(a: &Vec<u8>, b: &Vec<u8>) -> (r: bool)
    ensures
        r == (a@ == b@),
{
    if a.len() != b.len() {
        proof {
            assert(a@ != b@);
        }
        return false;
    }
    let mut i: usize = 0;
    while i < a.len()
        invariant
            i <= a.len(),
            a@.len() == b@.len(),
            forall|k: int| 0 <= k < i ==> a@[k] == b@[k],
        decreases a.len() - i,
    {
        if a[i] != b[i] {
            proof {
                assert(a@[i as int] != b@[i as int]);
            }
            return false;
        }
        i = i + 1;
    }
    proof {
        assert(a@ =~= b@);
    }
    true
}

impl BridgeHashType for Vec<u8> {
    open spec fn hash_bytes(&self) -> Seq<u8> {
        self@
    }

    fn hash_eq(&self, other: &Self) -> (r: bool)
        ensures
            r == (self.hash_bytes() == other.hash_bytes()),
    {
        bytes_eq(self, other)
    }

    fn hash_clone(&self) -> (r: Self)
        ensures
            r.hash_bytes() == self.hash_bytes(),
    {
        clone_bytes(self)
    }
}

impl BridgeAddressType for Vec<u8> {
    open spec fn addr_bytes(&self) -> Seq<u8> {
        self@
    }

    fn addr_clone(&self) -> (r: Self)
        ensures
            r.addr_bytes() == self.addr_bytes(),
    {
        clone_bytes(self)
    }

    fn to_bytes(&self) -> (r: Vec<u8>)
        ensures
            r@ == self.addr_bytes(),
    {
        clone_bytes(self)
    }

    fn from_bytes(bytes: Vec<u8>) -> (r: Self)
        ensures
            r.addr_bytes() == bytes@,
    {
        bytes
    }
}

impl Convert<Vec<u8>> for Vec<u8> {
    open spec fn spec_convert_bytes(&self) -> Seq<u8> {
        self@
    }

    fn convert(other: &Self) -> (r: Vec<u8>)
        ensures
            r.hash_bytes() == other.spec_convert_bytes(),
    {
        clone_bytes(other)
    }
}

impl GenUniqueHash for Vec<u8> {
    fn gen_unique_hash(entropy: u64) -> Self {
        let mut bytes: Vec<u8> = Vec::new();
        let mut rest: u64 = entropy;
        let mut i: usize = 0;
        while i < 8
            invariant
                i <= 8,
            decreases 8 - i,
        {
            bytes.push((rest % 256) as u8);
            rest = rest / 256;
            i = i + 1;
        }
        bytes
    }
}

} // verus!
