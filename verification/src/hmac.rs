//! The nonce-augmented HMAC.

use vstd::prelude::*;
use crate::ct::constant_time_eq;
use crate::hash;
use crate::pad::keyed_message;
use crate::pad::BLOCK;
use crate::pad::IPAD;
use crate::pad::OPAD;

verus! {

/// The tag of `data` under `key` when both passes are bound to `nonce` and
/// the outer pass is asked for `size` bytes:
/// `H(nonce, (key ^ opad) || H(nonce, (key ^ ipad) || data))`.
///
/// The inner digest has the hash function's natural length.
pub open spec fn mac<H: hash::Hash>(
    nonce: Seq<u8>,
    size: nat,
    key: Seq<u8>,
    data: Seq<u8>,
) -> Seq<u8> {
    H::digest(
        nonce,
        size,
        crate::pad::xor_pad(key, OPAD) + H::digest(
            nonce,
            H::natural_size(),
            crate::pad::xor_pad(key, IPAD) + data,
        ),
    )
}

/// HMAC, nonce variant.
///
/// Holds one instance of the hash function for each pass.  Neither the key
/// nor the data of a call is kept.
#[derive(Clone, Debug)]
pub struct HMAC<H> {
    ih: H,
    oh: H,
}

impl<H: hash::Hash> HMAC<H> {
    /// Well-formedness: both passes are bound to the same nonce, and the
    /// inner pass produces digests of natural length.  `new` establishes it
    /// and the configuration methods keep it.
    pub closed spec fn wf(&self) -> bool {
        &&& self.ih.key() == self.oh.key()
        &&& self.ih.size() == H::natural_size()
    }

    /// The nonce that both passes are bound to; empty when none is.
    pub closed spec fn nonce(&self) -> Seq<u8> {
        self.oh.key()
    }

    /// Length of the tags that this instance produces.
    pub closed spec fn size(&self) -> nat {
        self.oh.size()
    }

    /// The tag that this instance gives `data` under `key`.
    pub open spec fn tag(&self, key: Seq<u8>, data: Seq<u8>) -> Seq<u8> {
        mac::<H>(self.nonce(), self.size(), key, data)
    }

    /// Whether this instance takes `tag` for the tag of `data` under `key`.
    pub open spec fn accepts(&self, key: Seq<u8>, data: Seq<u8>, tag: Seq<u8>) -> bool {
        tag == self.tag(key, data)
    }

    /// Create a new HMAC.
    pub fn new() -> (h: Self)
        ensures
            h.wf(),
            h.nonce() == Seq::<u8>::empty(),
            h.size() == H::natural_size(),
    {
        HMAC::default()
    }

    /// Computes the tag of `data` under `key`.
    ///
    /// The key is spread over one block of `BLOCK` bytes and must fit in it:
    /// a longer key is not compressed first.
    pub fn result(&self, key: &[u8], data: &[u8]) -> (tag: Vec<u8>)
        requires
            self.wf(),
            key@.len() <= BLOCK,
        ensures
            tag@ == self.tag(key@, data@),
            tag@.len() == self.size(),
    {
        let inner = self.ih.hash(keyed_message(key, IPAD, data).as_slice());
        self.oh.hash(keyed_message(key, OPAD, inner.as_slice()).as_slice())
    }

    /// Recomputes the tag of `data` under `key` and compares it with `tag`,
    /// in time that does not depend on where the two differ.
    pub fn verify(&self, key: &[u8], data: &[u8], tag: &[u8]) -> (ok: bool)
        requires
            self.wf(),
            key@.len() <= BLOCK,
        ensures
            ok == self.accepts(key@, data@, tag@),
    {
        constant_time_eq(self.result(key, data).as_slice(), tag)
    }
}

impl<H: hash::Hash> Default for HMAC<H> {
    fn default() -> (h: Self)
        ensures
            h.wf(),
            h.nonce() == Seq::<u8>::empty(),
            h.size() == H::natural_size(),
    {
        HMAC { ih: H::default(), oh: H::default() }
    }
}

impl<H: hash::KeyedHash> HMAC<H> {
    /// Binds both passes to `nonce`, for every tag from now on, and hands
    /// the instance back for the next call.
    pub fn with_nonce(&mut self, nonce: &[u8]) -> (r: &mut Self)
        requires
            old(self).wf(),
            H::accepts_key(nonce@),
        ensures
            r.wf(),
            r.nonce() == nonce@,
            r.size() == old(self).size(),
            *final(self) == *final(r),
    {
        self.ih.with_key(nonce);
        self.oh.with_key(nonce);
        self
    }
}

impl<H: hash::SizedHash> HMAC<H> {
    /// Asks for tags of `len` bytes from now on, and hands the instance back
    /// for the next call.  Only the outer pass is touched.
    pub fn with_size(&mut self, len: usize) -> (r: &mut Self)
        requires
            old(self).wf(),
            H::accepts_size(len as nat),
        ensures
            r.wf(),
            r.size() == len,
            r.nonce() == old(self).nonce(),
            *final(self) == *final(r),
    {
        self.oh.with_size(len);
        self
    }
}

/// Determinism: two instances with the same nonce and the same tag length
/// give every message the same tag under every key.
pub proof fn lemma_tag_depends_on_configuration_alone<H: hash::Hash>(
    a: HMAC<H>,
    b: HMAC<H>,
    key: Seq<u8>,
    data: Seq<u8>,
)
    requires
        a.nonce() == b.nonce(),
        a.size() == b.size(),
    ensures
        a.tag(key, data) == b.tag(key, data),
{
}

/// The tag that an instance computes is the tag that it accepts.
pub proof fn lemma_own_tag_is_accepted<H: hash::Hash>(h: HMAC<H>, key: Seq<u8>, data: Seq<u8>)
    ensures
        h.accepts(key, data, h.tag(key, data)),
{
}

/// A tag that differs from the computed one, in a byte or in length, is
/// not accepted.
pub proof fn lemma_other_tag_is_rejected<H: hash::Hash>(
    h: HMAC<H>,
    key: Seq<u8>,
    data: Seq<u8>,
    tag: Seq<u8>,
)
    requires
        tag.len() != h.tag(key, data).len() || exists|i: int|
            0 <= i < tag.len() && tag[i] != #[trigger] h.tag(key, data)[i],
    ensures
        !h.accepts(key, data, tag),
{
}

/// A key shorter than a block gives the tags of the key that zero bytes
/// fill up to a block.
pub proof fn lemma_short_key_tags_as_zero_padded<H: hash::Hash>(
    h: HMAC<H>,
    key: Seq<u8>,
    data: Seq<u8>,
)
    requires
        key.len() <= BLOCK,
    ensures
        h.tag(key, data) == h.tag(crate::pad::zero_extended(key), data),
{
    crate::pad::lemma_short_key_is_zero_padded(key, IPAD);
    crate::pad::lemma_short_key_is_zero_padded(key, OPAD);
}

} // verus!
