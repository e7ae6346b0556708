//! The cryptographic collaborators of the protocol: an entropy source, a key
//! source, the commitment hash and the VRF. Each is a thin trusted wrapper
//! over an outside crate; the names below stand for results that depend on
//! the arguments alone.

use vstd::prelude::*;

verus! {

/// The BLAKE2b-256 digest of `data`.
pub uninterp spec fn blake2_256_of(data: Seq<u8>) -> Seq<u8>;

/// The public key that a 32-byte mini secret key expands to (Ed25519 mode).
pub uninterp spec fn public_key_of(secret: Seq<u8>) -> Seq<u8>;

/// The compressed VRF output point of the key expanded from `secret`, on the
/// transcript that the signing context `tag` makes of `msg`.
pub uninterp spec fn vrf_output_of(secret: Seq<u8>, tag: Seq<u8>, msg: Seq<u8>) -> Seq<u8>;

/// What VRF verification gives back for a public key, a transcript given by
/// `tag` and `msg`, a claimed output point and a short proof: `None` when a
/// value fails to decode or the proof is rejected, else the compressed input
/// point, the compressed output point and the batchable proof it recomputed.
pub uninterp spec fn vrf_verify_of(
    public: Seq<u8>,
    tag: Seq<u8>,
    msg: Seq<u8>,
    output: Seq<u8>,
    proof: Seq<u8>,
) -> Option<(Seq<u8>, Seq<u8>, Seq<u8>)>;

/// Relies on rand::random: a uniformly drawn `u32` from the thread-local
/// generator. Nothing is known of its value.
#[verifier::external_body]
pub(crate) fn fresh_random_u32() -> (r: u32) {
    rand::random::<u32>()
}

/// Relies on schnorrkel::MiniSecretKey::generate: 32 fresh random bytes of
/// secret key. Nothing is known of their value.
#[verifier::external_body]
pub(crate) fn fresh_secret_key() -> (r: [u8; 32]) {
    schnorrkel::MiniSecretKey::generate().to_bytes()
}

/// Relies on schnorrkel::MiniSecretKey::expand_to_public: every 32-byte
/// string is a mini secret key, and its public key depends on it alone.
#[verifier::external_body]
pub(crate) fn derive_public_key(secret: &[u8; 32]) -> (r: [u8; 32])
    ensures
        r@ == public_key_of(secret@),
{
    let mini = schnorrkel::MiniSecretKey::from_bytes(secret).expect("a 32-byte mini secret key");
    mini.expand_to_public(schnorrkel::ExpansionMode::Ed25519).to_bytes()
}

/// Relies on sp_core's Blake2Hasher::hash: the BLAKE2b-256 digest of `data`.
#[verifier::external_body]
pub(crate) fn blake2_256(data: &[u8; 4]) -> (r: [u8; 32])
    ensures
        r@ == blake2_256_of(data@),
{
    <sp_core::Blake2Hasher as sp_core::Hasher>::hash(data).0
}

/// Relies on schnorrkel's Keypair::vrf_sign on the key expanded from `secret`
/// and on `signing_context(tag).bytes(msg)`. It returns the compressed input
/// point, the compressed output point, the short proof and the batchable
/// proof. The output point is the secret scalar times a hash of the public key
/// and the transcript, so it depends on the arguments alone; the proof holds a
/// random witness. The transcript's message encoding asserts that the tag
/// fits in a `u32` length, so longer tags are excluded. The DLEQ proof it makes is accepted by
/// PublicKey::vrf_verify under the matching public key, which recomputes the
/// same input point and the same batchable proof (R = c*pk + s*B and
/// Hr = c*output + s*input with s = r - c*sk).
#[verifier::external_body]
pub(crate) fn vrf_sign(secret: &[u8; 32], tag: &[u8], msg: &[u8; 8]) -> (r: (
    [u8; 32],
    [u8; 32],
    [u8; 64],
    [u8; 96],
))
    requires
        tag@.len() <= u32::MAX,
    ensures
        r.1@ == vrf_output_of(secret@, tag@, msg@),
        vrf_verify_of(public_key_of(secret@), tag@, msg@, r.1@, r.2@) == Some(
            (r.0@, r.1@, r.3@),
        ),
{
    let mini = schnorrkel::MiniSecretKey::from_bytes(secret).expect("a 32-byte mini secret key");
    let pair = mini.expand_to_keypair(schnorrkel::ExpansionMode::Ed25519);
    let (io, proof, batchable) = pair.vrf_sign(schnorrkel::signing_context(tag).bytes(msg));
    let input = io.input.as_compressed().to_bytes();
    (input, io.to_preout().to_bytes(), proof.to_bytes(), batchable.to_bytes())
}

/// Relies on schnorrkel's PublicKey::vrf_verify on
/// `signing_context(tag).bytes(msg)`, after decoding the public key, the output
/// point (VRFPreOut) and the short proof from their bytes. Every decoding or
/// verification failure comes back as `None`. The transcript's message
/// encoding asserts that the tag fits in a `u32` length, so longer tags are
/// excluded.
#[verifier::external_body]
pub(crate) fn vrf_verify(
    public: &[u8; 32],
    tag: &[u8],
    msg: &[u8; 8],
    output: &[u8; 32],
    proof: &[u8; 64],
) -> (r: Option<([u8; 32], [u8; 32], [u8; 96])>)
    requires
        tag@.len() <= u32::MAX,
    ensures
        r is None <==> vrf_verify_of(public@, tag@, msg@, output@, proof@) is None,
        r matches Some(v) ==> vrf_verify_of(public@, tag@, msg@, output@, proof@) == Some(
            (v.0@, v.1@, v.2@),
        ),
{
    let key = schnorrkel::PublicKey::from_bytes(public).ok()?;
    let out = schnorrkel::vrf::VRFPreOut::from_bytes(output).ok()?;
    let proof = schnorrkel::vrf::VRFProof::from_bytes(proof).ok()?;
    let (io, batchable) = key.vrf_verify(schnorrkel::signing_context(tag).bytes(msg), &out, &proof).ok()?;
    Some((io.input.as_compressed().to_bytes(), io.to_preout().to_bytes(), batchable.to_bytes()))
}

} // verus!
