//! BLAKE2b as a hash function for the construction.

use vstd::prelude::*;
use vstd::slice::slice_to_vec;

verus! {

/// Longest key and longest digest of BLAKE2b, in bytes.
pub const BLAKE2B_MAX: usize = 64;

/// The BLAKE2b digest of `data`, `nn` bytes long, under the key `k`.
pub uninterp spec fn blake2b_digest(nn: nat, k: Seq<u8>, data: Seq<u8>) -> Seq<u8>;

/// Calls `blake2_rfc::blake2b::blake2b` and copies the digest out.
///
/// Trusted: that the call returns on these inputs (it asserts
/// `1 <= nn <= 64` and `k.len() <= 64`), that its result depends on the three
/// arguments alone, and that the digest is `nn` bytes long, which is where
/// `Blake2bResult::as_bytes` cuts it.
#[verifier::external_body]
fn blake2b(nn: usize, k: &[u8], data: &[u8]) -> (d: Vec<u8>)
    requires
        1 <= nn <= BLAKE2B_MAX,
        k@.len() <= BLAKE2B_MAX,
    ensures
        d@ == blake2b_digest(nn as nat, k@, data@),
        d@.len() == nn,
{
    blake2_rfc::blake2b::blake2b(nn, k, data).as_bytes().to_vec()
}

/// BLAKE2b with a key and a digest length of the caller's choice.
///
/// A fresh instance has no key and gives digests of `BLAKE2B_MAX` bytes.
#[derive(Debug)]
pub struct Blake2b {
    key: Vec<u8>,
    size: usize,
}

impl Blake2b {
    #[verifier::type_invariant]
    spec fn within_limits(self) -> bool {
        &&& self.key@.len() <= BLAKE2B_MAX
        &&& 1 <= self.size <= BLAKE2B_MAX
    }
}

impl Clone for Blake2b {
    fn clone(&self) -> (copy: Self)
        ensures
            crate::hash::Hash::key(&copy) == crate::hash::Hash::key(self),
            crate::hash::Hash::size(&copy) == crate::hash::Hash::size(self),
    {
        proof {
            use_type_invariant(self);
        }
        let key = self.key.clone();
        assert(key@ =~= self.key@);
        Blake2b { key, size: self.size }
    }
}

impl crate::hash::Hash for Blake2b {
    open spec fn natural_size() -> nat {
        BLAKE2B_MAX as nat
    }

    closed spec fn key(&self) -> Seq<u8> {
        self.key@
    }

    closed spec fn size(&self) -> nat {
        self.size as nat
    }

    open spec fn digest(key: Seq<u8>, size: nat, data: Seq<u8>) -> Seq<u8> {
        blake2b_digest(size, key, data)
    }

    fn default() -> (h: Self) {
        Blake2b { key: Vec::new(), size: BLAKE2B_MAX }
    }

    fn hash(&self, data: &[u8]) -> (d: Vec<u8>) {
        proof {
            use_type_invariant(self);
        }
        blake2b(self.size, self.key.as_slice(), data)
    }
}

impl crate::hash::KeyedHash for Blake2b {
    open spec fn accepts_key(key: Seq<u8>) -> bool {
        key.len() <= BLAKE2B_MAX
    }

    fn with_key(&mut self, key: &[u8]) {
        proof {
            use_type_invariant(&*self);
        }
        self.key = slice_to_vec(key);
    }
}

impl crate::hash::SizedHash for Blake2b {
    open spec fn accepts_size(len: nat) -> bool {
        1 <= len <= BLAKE2B_MAX
    }

    fn with_size(&mut self, len: usize) {
        proof {
            use_type_invariant(&*self);
        }
        self.size = len;
    }
}

} // verus!
