//! The sr25519 signing boundary.
//!
//! Key derivation, signing and verification are performed by the
//! schnorrkel crate; this module states their behaviour at the boundary
//! and keeps everything around them verified. Both signing and
//! verification use this crate's fixed signing context, the byte string
//! `ocw-payload`.

use vstd::prelude::*;

verus! {

/// What sr25519 verification returns for a signature, a message and a
/// public key, under this crate's signing context: a deterministic
/// function of the three byte strings.
pub uninterp spec fn sig_valid(sig: Seq<u8>, msg: Seq<u8>, public: Seq<u8>) -> bool;

/// The public key derived from a 32-byte seed: deterministic in the
/// seed.
pub uninterp spec fn pk_of(seed: Seq<u8>) -> Seq<u8>;

/// Relies on schnorrkel: `PublicKey::from_bytes`,
/// `Signature::from_bytes` and `PublicKey::verify_simple` under the
/// fixed context. The outcome depends only on the three byte strings; a
/// key or signature of the wrong shape verifies as false.
#[verifier::external_body]
pub(crate) fn sr25519_verify(sig: &Vec<u8>, msg: &Vec<u8>, public: &Vec<u8>) -> (r: bool)
    ensures
        r == sig_valid(sig@, msg@, public@),
{
    let pk = match schnorrkel::PublicKey::from_bytes(public) {
        Ok(pk) => pk,
        Err(_) => return false,
    };
    let parsed = match schnorrkel::Signature::from_bytes(sig) {
        Ok(s) => s,
        Err(_) => return false,
    };
    pk.verify_simple(b"ocw-payload", msg, &parsed).is_ok()
}

/// Relies on schnorrkel: `MiniSecretKey::from_bytes` — which accepts
/// exactly 32 bytes — `expand_to_public` with Ed25519 expansion, and
/// `PublicKey::to_bytes` (32 bytes). Derivation is deterministic in the
/// seed.
#[verifier::external_body]
fn sr25519_public(seed: &Vec<u8>) -> (r: Option<Vec<u8>>)
    ensures
        match r {
            Some(pk) => seed@.len() == 32 && pk@ == pk_of(seed@) && pk@.len() == 32,
            None => seed@.len() != 32,
        },
{
    let mini = schnorrkel::MiniSecretKey::from_bytes(seed).ok()?;
    Some(mini.expand_to_public(schnorrkel::ExpansionMode::Ed25519).to_bytes().to_vec())
}

/// Relies on schnorrkel: `MiniSecretKey::from_bytes`,
/// `expand_to_keypair` and `Keypair::sign_simple` under the fixed
/// context, with `Signature::to_bytes` (64 bytes). Signing draws
/// randomness, so nothing names the signature itself; what every outcome
/// satisfies is that it verifies against the seed's public key.
#[verifier::external_body]
fn sr25519_sign(seed: &Vec<u8>, msg: &Vec<u8>) -> (r: Option<Vec<u8>>)
    ensures
        match r {
            Some(sig) => seed@.len() == 32 && sig@.len() == 64 && sig_valid(
                sig@,
                msg@,
                pk_of(seed@),
            ),
            None => seed@.len() != 32,
        },
{
    let mini = schnorrkel::MiniSecretKey::from_bytes(seed).ok()?;
    let keypair = mini.expand_to_keypair(schnorrkel::ExpansionMode::Ed25519);
    Some(keypair.sign_simple(b"ocw-payload", msg).to_bytes().to_vec())
}

/// A locally configured signing identity, held as its 32-byte seed.
///
/// The worker selects any available identity; when none is configured
/// the strategies that need one fail explicitly.
pub struct SigningIdentity {
    seed: Vec<u8>,
}

impl SigningIdentity {
    /// The seed bytes (specification-level only; the seed never leaves
    /// the identity in executable code).
    pub closed spec fn seed_view(&self) -> Seq<u8> {
        self.seed@
    }

    pub open spec fn wf(&self) -> bool {
        self.seed_view().len() == 32
    }

    /// Take up a 32-byte seed as the local identity; any other length is
    /// refused.
    pub fn from_seed(seed: Vec<u8>) -> (r: Option<SigningIdentity>)
        ensures
            match r {
                Some(id) => seed@.len() == 32 && id.seed_view() == seed@ && id.wf(),
                None => seed@.len() != 32,
            },
    {
        if seed.len() == 32 {
            Some(SigningIdentity { seed })
        } else {
            None
        }
    }

    /// This identity's public key.
    pub fn public_key(&self) -> (r: Vec<u8>)
        requires
            self.wf(),
        ensures
            r@ == pk_of(self.seed_view()),
            r@.len() == 32,
    {
        match sr25519_public(&self.seed) {
            Some(pk) => pk,
            None => unreached(),
        }
    }

    /// Sign `msg`: the produced signature verifies against this
    /// identity's public key.
    pub fn sign(&self, msg: &Vec<u8>) -> (r: Vec<u8>)
        requires
            self.wf(),
        ensures
            r@.len() == 64,
            sig_valid(r@, msg@, pk_of(self.seed_view())),
    {
        match sr25519_sign(&self.seed, msg) {
            Some(sig) => sig,
            None => unreached(),
        }
    }
}

} // verus!
