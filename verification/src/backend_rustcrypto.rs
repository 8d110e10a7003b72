//! Key generation, signing and verification, dispatched on the level to the
//! ML-DSA primitive of that level.

use vstd::prelude::*;
use vstd::string::*;
use crate::error::{level_mismatch, level_mismatch_text, size_mismatch, size_mismatch_text, undecodable_text, Error, ErrorView};
use crate::level::MlDsaLevel;
use crate::primitives::{keygen_44, keygen_65, keygen_87, ml_dsa_public_key, ml_dsa_signature, ml_dsa_verdict, sign_44, sign_65, sign_87, verify_44, verify_65, verify_87};
use crate::types::{KeyPairView, MlDsaKeyPair, MlDsaSignature, SignatureView};

verus! {

/// The key pair that `seed` generates at `level`.
pub open spec fn spec_generate_keypair(level: MlDsaLevel, seed: Seq<u8>) -> KeyPairView {
    KeyPairView { level, seed, public_key: ml_dsa_public_key(level, seed) }
}

/// The signature that `keypair` makes of `message`.
pub open spec fn spec_sign(keypair: KeyPairView, message: Seq<u8>) -> SignatureView {
    SignatureView {
        level: keypair.level,
        bytes: ml_dsa_signature(keypair.level, keypair.seed, message),
    }
}

/// What becomes of the verdict of the primitive: a signature that does not
/// decode is an error, any other verdict is the answer.
pub open spec fn spec_verdict_result(verdict: Option<bool>) -> Result<bool, ErrorView> {
    match verdict {
        Some(accepted) => Ok(accepted),
        None => Err(ErrorView::InvalidSignature(undecodable_text())),
    }
}

/// The outcome of a verification. The checks come in this order: the level
/// of the signature, the length of the public key, the length of the
/// signature. Only bytes that pass all three reach the primitive.
pub open spec fn spec_verify(
    public_key: Seq<u8>,
    level: MlDsaLevel,
    message: Seq<u8>,
    signature: SignatureView,
) -> Result<bool, ErrorView> {
    if signature.level != level {
        Err(ErrorView::InvalidSignature(level_mismatch_text(signature.level, level)))
    } else if public_key.len() != level.spec_public_key_size() {
        Err(
            ErrorView::InvalidPublicKey(
                size_mismatch_text(level.spec_public_key_size() as nat, public_key.len()),
            ),
        )
    } else if signature.bytes.len() != level.spec_signature_size() {
        Err(
            ErrorView::InvalidSignature(
                size_mismatch_text(level.spec_signature_size() as nat, signature.bytes.len()),
            ),
        )
    } else {
        spec_verdict_result(ml_dsa_verdict(level, public_key, message, signature.bytes))
    }
}

/// A verification result as contracts speak of it.
pub open spec fn result_view(result: Result<bool, Error>) -> Result<bool, ErrorView> {
    match result {
        Ok(accepted) => Ok(accepted),
        Err(e) => Err(e@),
    }
}

/// Generates the key pair of `seed` at `level`.
pub fn generate_keypair(level: MlDsaLevel, seed: &[u8; 32]) -> (generated: Result<
    MlDsaKeyPair,
    Error,
>)
    ensures
        generated matches Ok(keypair) && keypair@ == spec_generate_keypair(level, seed@),
        spec_generate_keypair(level, seed@).public_key.len() == level.spec_public_key_size(),
{
    let public_key = match level {
        MlDsaLevel::Dsa44 => keygen_44(seed),
        MlDsaLevel::Dsa65 => keygen_65(seed),
        MlDsaLevel::Dsa87 => keygen_87(seed),
    };
    Ok(MlDsaKeyPair::new(level, *seed, public_key))
}

/// Signs `message` with the signing key made again from the seed of
/// `keypair`. The signature carries the level of the key pair, and it is
/// accepted under the public key that the same seed generates.
pub fn sign(keypair: &MlDsaKeyPair, message: &[u8]) -> (signed: Result<MlDsaSignature, Error>)
    ensures
        signed matches Ok(signature) && signature@ == spec_sign(keypair@, message@),
        spec_sign(keypair@, message@).bytes.len() == keypair@.level.spec_signature_size(),
        ml_dsa_verdict(
            keypair@.level,
            ml_dsa_public_key(keypair@.level, keypair@.seed),
            message@,
            spec_sign(keypair@, message@).bytes,
        ) == Some(true),
{
    let seed = keypair.seed();
    let level = keypair.level();
    let bytes = match level {
        MlDsaLevel::Dsa44 => sign_44(seed, message),
        MlDsaLevel::Dsa65 => sign_65(seed, message),
        MlDsaLevel::Dsa87 => sign_87(seed, message),
    };
    Ok(MlDsaSignature::new(level, bytes))
}

/// Turns the verdict of the primitive into the result of a verification.
pub fn verdict_result(verdict: Option<bool>) -> (result: Result<bool, Error>)
    ensures
        result_view(result) == spec_verdict_result(verdict),
{
    match verdict {
        Some(accepted) => Ok(accepted),
        None => Err(Error::InvalidSignature(String::from_str("failed to decode signature"))),
    }
}

/// Verifies `signature` over `message` under `public_key` at `level`.
///
/// A signature of another level, a public key of the wrong length and a
/// signature of the wrong length are errors, in this order, and the
/// primitive is not called for them. A signature that the primitive does not
/// accept is `Ok(false)`.
pub fn verify(
    public_key: &[u8],
    level: MlDsaLevel,
    message: &[u8],
    signature: &MlDsaSignature,
) -> (verified: Result<bool, Error>)
    ensures
        result_view(verified) == spec_verify(public_key@, level, message@, signature@),
{
    let found = signature.level();
    if found != level {
        return Err(Error::InvalidSignature(level_mismatch(found, level)));
    }
    if public_key.len() != level.public_key_size() {
        return Err(
            Error::InvalidPublicKey(size_mismatch(level.public_key_size(), public_key.len())),
        );
    }
    let bytes = signature.as_bytes();
    if bytes.len() != level.signature_size() {
        return Err(Error::InvalidSignature(size_mismatch(level.signature_size(), bytes.len())));
    }
    let verdict = match level {
        MlDsaLevel::Dsa44 => verify_44(public_key, message, bytes),
        MlDsaLevel::Dsa65 => verify_65(public_key, message, bytes),
        MlDsaLevel::Dsa87 => verify_87(public_key, message, bytes),
    };
    verdict_result(verdict)
}

/// A signature made at one level is never accepted at another: whatever
/// the key and the message, verification reports the mismatch.
pub proof fn lemma_other_level_is_rejected(
    public_key: Seq<u8>,
    level: MlDsaLevel,
    message: Seq<u8>,
    signature: SignatureView,
)
    requires
        signature.level != level,
    ensures
        spec_verify(public_key, level, message, signature) == Err::<bool, ErrorView>(
            ErrorView::InvalidSignature(level_mismatch_text(signature.level, level)),
        ),
        spec_verify(public_key, level, message, signature) != Ok::<bool, ErrorView>(true),
{
}

/// Signing and verifying go round: whatever `generate_keypair` returns for
/// a seed, whatever `sign` returns for that key pair and a message, and
/// whatever `verify` returns for the public key of the pair, its level, the
/// message and that signature, the last is `Ok(true)`.
pub proof fn lemma_sign_verify_round_trip(
    level: MlDsaLevel,
    seed: &[u8; 32],
    keypair: MlDsaKeyPair,
    message: &[u8],
    signature: MlDsaSignature,
    public_key: &[u8],
    verified: Result<bool, Error>,
)
    requires
        call_ensures(generate_keypair, (level, seed), Ok(keypair)),
        call_ensures(sign, (&keypair, message), Ok(signature)),
        public_key@ == keypair@.public_key,
        call_ensures(verify, (public_key, level, message, &signature), verified),
    ensures
        verified == Ok::<bool, Error>(true),
{
}

} // verus!
