//! Report authorization keys and the temporary contact key ratchet.
use crate::bytes::{append_bytes, append_le16, le16};
use crate::crypto::{sha256, sha256_of, verification_key, verification_key_of};
use vstd::prelude::*;

verus! {

/// The domain separator of key updates, the ASCII bytes `H_TCK`.
pub open spec fn tck_domain_sep() -> Seq<u8> {
    seq![0x48u8, 0x5f, 0x54, 0x43, 0x4b]
}

/// The domain separator of number derivation, the ASCII bytes `H_TCN`.
pub open spec fn tcn_domain_sep() -> Seq<u8> {
    seq![0x48u8, 0x5f, 0x54, 0x43, 0x4e]
}

/// The key bytes at index 0 of the chain seeded by `rak`.
pub open spec fn seed_key_bytes(rak: Seq<u8>) -> Seq<u8> {
    sha256_of(tck_domain_sep() + rak)
}

/// The key bytes one ratchet step after `bytes`, in the chain bound to `rvk`.
pub open spec fn next_key_bytes(rvk: Seq<u8>, bytes: Seq<u8>) -> Seq<u8> {
    sha256_of(tck_domain_sep() + rvk + bytes)
}

/// The key bytes `n` ratchet steps after `bytes`, in the chain bound to `rvk`.
pub open spec fn ratchet_bytes(rvk: Seq<u8>, bytes: Seq<u8>, n: nat) -> Seq<u8>
    decreases n,
{
    if n == 0 {
        bytes
    } else {
        next_key_bytes(rvk, ratchet_bytes(rvk, bytes, (n - 1) as nat))
    }
}

/// The temporary contact number derived from the key bytes `bytes` at `index`.
pub open spec fn tcn_of(index: u16, bytes: Seq<u8>) -> Seq<u8> {
    sha256_of(tcn_domain_sep() + le16(index) + bytes).take(16)
}

/// A temporary contact key as a mathematical value.
pub struct KeyModel {
    pub index: nat,
    pub rvk: Seq<u8>,
    pub bytes: Seq<u8>,
}

/// One ratchet step.
pub open spec fn advance(k: KeyModel) -> KeyModel {
    KeyModel { index: k.index + 1, rvk: k.rvk, bytes: next_key_bytes(k.rvk, k.bytes) }
}

/// `n` ratchet steps.
pub open spec fn advance_n(k: KeyModel, n: nat) -> KeyModel
    decreases n,
{
    if n == 0 {
        k
    } else {
        advance(advance_n(k, (n - 1) as nat))
    }
}

/// Advancing `n` steps after one step is one step after advancing `n` steps.
pub proof fn lemma_advance_n_shift(k: KeyModel, n: nat)
    ensures
        advance_n(advance(k), n) == advance(advance_n(k, n)),
    decreases n,
{
    if n > 0 {
        lemma_advance_n_shift(k, (n - 1) as nat);
    }
}

/// The temporary contact number of the key `k`.
pub open spec fn key_tcn(k: KeyModel) -> Seq<u8> {
    tcn_of(k.index as u16, k.bytes)
}

/// The key at index `i` of the chain of the report authorization key `rak`.
pub open spec fn chain_key(rak: Seq<u8>, i: nat) -> KeyModel {
    KeyModel {
        index: i,
        rvk: verification_key_of(rak),
        bytes: ratchet_bytes(verification_key_of(rak), seed_key_bytes(rak), i),
    }
}

/// The temporary contact number at index `i` of the chain of `rak`.
pub open spec fn chain_tcn(rak: Seq<u8>, i: nat) -> Seq<u8> {
    key_tcn(chain_key(rak, i))
}

/// Authorizes publication of a report of potential exposure.
///
/// Holds the 32-byte seed of an Ed25519 secret key.
#[derive(Copy, Clone, Debug)]
pub struct ReportAuthorizationKey {
    pub(crate) rak: [u8; 32],
}

impl View for ReportAuthorizationKey {
    type V = Seq<u8>;

    open(crate) spec fn view(&self) -> Seq<u8> {
        self.rak@
    }
}

/// A pseudorandom 128-bit value broadcast to nearby devices over Bluetooth.
#[derive(Copy, Clone, Debug, Eq, PartialEq, PartialOrd, Ord, Hash)]
pub struct TemporaryContactNumber(pub [u8; 16]);

impl View for TemporaryContactNumber {
    type V = Seq<u8>;

    open spec fn view(&self) -> Seq<u8> {
        self.0@
    }
}

/// A ratcheting key used to derive temporary contact numbers.
#[derive(Copy, Clone, Debug, Eq, PartialEq)]
pub struct TemporaryContactKey {
    pub(crate) index: u16,
    pub(crate) rvk: [u8; 32],
    pub(crate) tck_bytes: [u8; 32],
}

impl View for TemporaryContactKey {
    type V = KeyModel;

    open(crate) spec fn view(&self) -> KeyModel {
        KeyModel { index: self.index as nat, rvk: self.rvk@, bytes: self.tck_bytes@ }
    }
}

/// Appends the domain separator of key updates to `v`.
fn append_tck_domain_sep(v: &mut Vec<u8>)
    ensures
        final(v)@ == old(v)@ + tck_domain_sep(),
{
    v.push(0x48);
    v.push(0x5f);
    v.push(0x54);
    v.push(0x43);
    v.push(0x4b);
    assert(v@ =~= old(v)@ + tck_domain_sep());
}

/// Appends the domain separator of number derivation to `v`.
fn append_tcn_domain_sep(v: &mut Vec<u8>)
    ensures
        final(v)@ == old(v)@ + tcn_domain_sep(),
{
    v.push(0x48);
    v.push(0x5f);
    v.push(0x54);
    v.push(0x43);
    v.push(0x4e);
    assert(v@ =~= old(v)@ + tcn_domain_sep());
}

impl TemporaryContactKey {
    /// The current ratchet index.
    pub fn index(&self) -> (r: u16)
        ensures
            r as nat == self@.index,
    {
        self.index
    }

    /// Compute the temporary contact number derived from this key.
    pub fn temporary_contact_number(&self) -> (r: TemporaryContactNumber)
        ensures
            r@ == key_tcn(self@),
    {
        let mut preimage: Vec<u8> = Vec::new();
        append_tcn_domain_sep(&mut preimage);
        append_le16(&mut preimage, self.index);
        append_bytes(&mut preimage, self.tck_bytes.as_slice());
        let digest = sha256(preimage.as_slice());
        let mut bytes = [0u8; 16];
        let mut i: usize = 0;
        while i < 16
            invariant
                i <= 16,
                digest@.len() == 32,
                forall|k: int| 0 <= k < i ==> bytes@[k] == digest@[k],
            decreases 16 - i,
        {
            bytes[i] = digest[i];
            i = i + 1;
        }
        assert(preimage@ == tcn_domain_sep() + le16(self.index) + self.tck_bytes@);
        assert(bytes@ =~= digest@.take(16));
        TemporaryContactNumber(bytes)
    }

    /// Ratchet the key forward, producing a new key for a new temporary
    /// contact number.
    ///
    /// Returns `Some(new_key)` if the current ratchet index is less than
    /// `u16::MAX`, and `None` if it is `u16::MAX`, signaling that the report
    /// authorization key should be rotated.
    pub fn ratchet(self) -> (r: Option<TemporaryContactKey>)
        ensures
            self@.index < 65535 ==> r is Some && r->Some_0@ == advance(self@),
            self@.index == 65535 ==> r is None,
    {
        if self.index < 65535 {
            let mut preimage: Vec<u8> = Vec::new();
            append_tck_domain_sep(&mut preimage);
            append_bytes(&mut preimage, self.rvk.as_slice());
            append_bytes(&mut preimage, self.tck_bytes.as_slice());
            let next = sha256(preimage.as_slice());
            Some(TemporaryContactKey { index: self.index + 1, rvk: self.rvk, tck_bytes: next })
        } else {
            None
        }
    }
}

/// One ratchet step from the key at index `i` of a chain gives the key at
/// index `i + 1`.
pub proof fn lemma_chain_step(rak: Seq<u8>, i: nat)
    ensures
        advance(chain_key(rak, i)) == chain_key(rak, i + 1),
{
}

impl ReportAuthorizationKey {
    /// Initialize a new report authorization key from a random number
    /// generator.
    ///
    /// Relies on `ed25519_zebra::SecretKey::new`, which fills the 32-byte seed
    /// from `rng`; any seed is a valid key, so nothing is promised of it.
    #[verifier::external_body]
    pub fn new<R: rand_core::RngCore + rand_core::CryptoRng>(rng: R) -> ReportAuthorizationKey {
        ReportAuthorizationKey { rak: ed25519_zebra::SecretKey::new(rng).into() }
    }

    /// The verification key that belongs to this authorization key.
    pub(crate) fn verification_key(&self) -> (r: [u8; 32])
        ensures
            r@ == verification_key_of(self@),
    {
        verification_key(&self.rak)
    }

    /// The key at index 0, which yields no number and is never handed out.
    pub(crate) fn seed_key(&self) -> (r: TemporaryContactKey)
        ensures
            r@ == chain_key(self@, 0),
    {
        let rvk = self.verification_key();
        let mut preimage: Vec<u8> = Vec::new();
        append_tck_domain_sep(&mut preimage);
        append_bytes(&mut preimage, self.rak.as_slice());
        let tck_bytes = sha256(preimage.as_slice());
        TemporaryContactKey { index: 0, rvk, tck_bytes }
    }

    /// Compute the initial temporary contact key derived from this report
    /// authorization key, the key at index 1.
    pub fn initial_temporary_contact_key(&self) -> (r: TemporaryContactKey)
        ensures
            r@ == chain_key(self@, 1),
    {
        let seed = self.seed_key();
        proof {
            lemma_chain_step(self@, 0);
        }
        seed.ratchet().unwrap()
    }
}

} // verus!
