//! What the construction asks of the hash function underneath it.

use vstd::prelude::*;

pub mod blake2;

pub use crate::hash::blake2::Blake2b;

verus! {

/// A hash function as the construction sees it.
///
/// An instance carries a configuration, a key and a digest length, and its
/// digests are a function of that configuration and the input alone.  The
/// construction is proved against the contracts below, so what it promises
/// holds for a hash type exactly as far as that type keeps them.
pub trait Hash: Sized {
    /// Length of a digest when no length has been asked for.
    spec fn natural_size() -> nat;

    /// The key bound to this instance; empty when none is.
    spec fn key(&self) -> Seq<u8>;

    /// Length of the digests that this instance produces.
    spec fn size(&self) -> nat;

    /// The digest of `data` under the configuration `key`, `size`.
    spec fn digest(key: Seq<u8>, size: nat, data: Seq<u8>) -> Seq<u8>;

    /// A fresh instance: no key, natural digest length.
    ///
    /// This stands in for `Default::default`, which cannot carry a contract.
    fn default() -> (h: Self)
        ensures
            h.key() == Seq::<u8>::empty(),
            h.size() == Self::natural_size(),
    ;

    /// Hashes `data` under this instance's configuration.
    fn hash(&self, data: &[u8]) -> (d: Vec<u8>)
        ensures
            d@ == Self::digest(self.key(), self.size(), data@),
            d@.len() == self.size(),
    ;
}

/// A hash function that can be keyed.
pub trait KeyedHash: Hash {
    /// Whether the hash function takes `key` as a key.  What a key means to
    /// it, a secret or a tweak, is the hash function's own affair.
    spec fn accepts_key(key: Seq<u8>) -> bool;

    /// Binds `key` to this instance, for every digest from now on.
    fn with_key(&mut self, key: &[u8])
        requires
            Self::accepts_key(key@),
        ensures
            final(self).key() == key@,
            final(self).size() == old(self).size(),
    ;
}

/// A hash function whose digest length can be chosen.
pub trait SizedHash: Hash {
    /// Whether the hash function can produce digests of `len` bytes.
    spec fn accepts_size(len: nat) -> bool;

    /// Sets the length of every digest from now on.
    fn with_size(&mut self, len: usize)
        requires
            Self::accepts_size(len as nat),
        ensures
            final(self).size() == len,
            final(self).key() == old(self).key(),
    ;
}

} // verus!
