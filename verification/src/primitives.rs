//! The cryptographic primitives this library stands on, and what it takes
//! on trust about them.
//!
//! Nothing in this module is proved. Each function hands plain bytes to an
//! outside crate and hands plain bytes back; its contract records what that
//! crate documents. The results of the primitives are named by functions
//! without a body, so that the rest of the library can say exactly which
//! primitive was applied to which bytes.

use vstd::prelude::*;
use crate::level::MlDsaLevel;
use hybrid_array::Array;
use ml_dsa::{Keypair, MlDsa44, MlDsa65, MlDsa87, Signature, Signer, SigningKey, Verifier, VerifyingKey};
use sha3::digest::ExtendableOutput;

verus! {

/// The first 32 bytes of the SHAKE256 output stream for the input `data`.
pub uninterp spec fn shake256_32(data: Seq<u8>) -> Seq<u8>;

/// The encoded public key that ML-DSA key generation (FIPS 204,
/// `ML-DSA.KeyGen_internal`) derives from `seed` at `level`.
pub uninterp spec fn ml_dsa_public_key(level: MlDsaLevel, seed: Seq<u8>) -> Seq<u8>;

/// The encoded signature that deterministic ML-DSA signing with an empty
/// context makes of `message` under the key generated from `seed`.
pub uninterp spec fn ml_dsa_signature(level: MlDsaLevel, seed: Seq<u8>, message: Seq<u8>) -> Seq<u8>;

/// What ML-DSA verification with an empty context says of `signature` over
/// `message` under `public_key`: `None` where the signature bytes do not
/// decode, else whether the signature is accepted.
pub uninterp spec fn ml_dsa_verdict(
    level: MlDsaLevel,
    public_key: Seq<u8>,
    message: Seq<u8>,
    signature: Seq<u8>,
) -> Option<bool>;

/// The 64-byte BIP39 seed of a mnemonic phrase and a passphrase, or `None`
/// where the phrase is not a valid mnemonic.
pub uninterp spec fn bip39_seed(phrase: Seq<char>, passphrase: Seq<char>) -> Option<Seq<u8>>;

/// `Shake256::digest_xof` of the `sha3` crate: absorbs `data` into a fresh
/// SHAKE256 state and reads the first 32 bytes of its output. The result
/// depends on `data` alone.
#[verifier::external_body]
pub(crate) fn shake256_read_32(data: &[u8]) -> (out: [u8; 32])
    ensures
        out@ == shake256_32(data@),
{
    let mut out = [0u8; 32];
    sha3::Shake256::digest_xof(data, &mut out);
    out
}

/// `Zeroize::zeroize` of the `zeroize` crate on a byte array: overwrites
/// every byte with zero, by writes the compiler may not remove. It does not
/// panic.
#[verifier::external_body]
pub(crate) fn wipe(bytes: &mut [u8; 32])
    ensures
        final(bytes)@ == Seq::new(32, |i: int| 0u8),
    opens_invariants none
    no_unwind
{
    zeroize::Zeroize::zeroize(bytes);
}

/// `Zeroize::zeroize` of the `zeroize` crate on a byte vector: overwrites
/// the bytes it holds and its spare capacity with zeros, then empties it.
/// What an earlier reallocation left behind is out of its reach. It does not
/// panic.
#[verifier::external_body]
pub(crate) fn wipe_buffer(buffer: &mut Vec<u8>)
    ensures
        final(buffer)@ == Seq::<u8>::empty(),
{
    zeroize::Zeroize::zeroize(buffer);
}

/// `Mnemonic::parse_normalized` followed by `Mnemonic::to_seed` of the
/// `bip39` crate. The phrase is checked against the word lists compiled in
/// (word count, words, checksum); a phrase that passes is stretched with the
/// passphrase into 64 bytes. Both steps depend on their arguments alone. A
/// phrase that fails comes back as the text of the crate's error, of which
/// nothing is claimed.
#[verifier::external_body]
pub(crate) fn mnemonic_seed(phrase: &str, passphrase: &str) -> (outcome: Result<[u8; 64], String>)
    ensures
        match outcome {
            Ok(seed) => bip39_seed(phrase@, passphrase@) == Some(seed@),
            Err(_) => bip39_seed(phrase@, passphrase@) is None,
        },
{
    match bip39::Mnemonic::parse_normalized(phrase) {
        Ok(mnemonic) => Ok(mnemonic.to_seed(passphrase)),
        Err(e) => Err(e.to_string()),
    }
}

/// `SigningKey::<MlDsa44>::from_seed`, then the encoding of its verifying
/// key. Key generation is a function of the seed alone, and the encoding of
/// an ML-DSA-44 public key is 1312 bytes long.
#[verifier::external_body]
pub(crate) fn keygen_44(seed: &[u8; 32]) -> (public_key: Vec<u8>)
    ensures
        public_key@ == ml_dsa_public_key(MlDsaLevel::Dsa44, seed@),
        public_key@.len() == 1312,
{
    SigningKey::<MlDsa44>::from_seed(&Array::from(*seed)).verifying_key().encode().to_vec()
}

/// As `keygen_44`, for ML-DSA-65, whose public keys are 1952 bytes long.
#[verifier::external_body]
pub(crate) fn keygen_65(seed: &[u8; 32]) -> (public_key: Vec<u8>)
    ensures
        public_key@ == ml_dsa_public_key(MlDsaLevel::Dsa65, seed@),
        public_key@.len() == 1952,
{
    SigningKey::<MlDsa65>::from_seed(&Array::from(*seed)).verifying_key().encode().to_vec()
}

/// As `keygen_44`, for ML-DSA-87, whose public keys are 2592 bytes long.
#[verifier::external_body]
pub(crate) fn keygen_87(seed: &[u8; 32]) -> (public_key: Vec<u8>)
    ensures
        public_key@ == ml_dsa_public_key(MlDsaLevel::Dsa87, seed@),
        public_key@.len() == 2592,
{
    SigningKey::<MlDsa87>::from_seed(&Array::from(*seed)).verifying_key().encode().to_vec()
}

/// `SigningKey::<MlDsa44>::from_seed`, then `Signer::sign`, then the
/// encoding of the signature. The crate signs by the deterministic variant
/// of ML-DSA with an empty context, so the signature depends on the seed and
/// the message alone; its encoding is 2420 bytes long. The scheme is
/// correct: the signature decodes and is accepted under the public key
/// generated from the same seed. The crate bounds the rejection loop of
/// signing and treats its exhaustion as unreachable.
#[verifier::external_body]
pub(crate) fn sign_44(seed: &[u8; 32], message: &[u8]) -> (signature: Vec<u8>)
    ensures
        signature@ == ml_dsa_signature(MlDsaLevel::Dsa44, seed@, message@),
        signature@.len() == 2420,
        ml_dsa_verdict(
            MlDsaLevel::Dsa44,
            ml_dsa_public_key(MlDsaLevel::Dsa44, seed@),
            message@,
            signature@,
        ) == Some(true),
{
    SigningKey::<MlDsa44>::from_seed(&Array::from(*seed)).sign(message).encode().to_vec()
}

/// As `sign_44`, for ML-DSA-65, whose signatures are 3309 bytes long.
#[verifier::external_body]
pub(crate) fn sign_65(seed: &[u8; 32], message: &[u8]) -> (signature: Vec<u8>)
    ensures
        signature@ == ml_dsa_signature(MlDsaLevel::Dsa65, seed@, message@),
        signature@.len() == 3309,
        ml_dsa_verdict(
            MlDsaLevel::Dsa65,
            ml_dsa_public_key(MlDsaLevel::Dsa65, seed@),
            message@,
            signature@,
        ) == Some(true),
{
    SigningKey::<MlDsa65>::from_seed(&Array::from(*seed)).sign(message).encode().to_vec()
}

/// As `sign_44`, for ML-DSA-87, whose signatures are 4627 bytes long.
#[verifier::external_body]
pub(crate) fn sign_87(seed: &[u8; 32], message: &[u8]) -> (signature: Vec<u8>)
    ensures
        signature@ == ml_dsa_signature(MlDsaLevel::Dsa87, seed@, message@),
        signature@.len() == 4627,
        ml_dsa_verdict(
            MlDsaLevel::Dsa87,
            ml_dsa_public_key(MlDsaLevel::Dsa87, seed@),
            message@,
            signature@,
        ) == Some(true),
{
    SigningKey::<MlDsa87>::from_seed(&Array::from(*seed)).sign(message).encode().to_vec()
}

/// `VerifyingKey::<MlDsa44>::decode`, `Signature::<MlDsa44>::decode` and
/// `Verifier::verify`. Decoding a public key of the right length never
/// fails; decoding a signature may, and then nothing is verified. The
/// verdict depends on the three byte strings alone. The lengths demanded
/// are those of the crate's fixed-size arrays, so the conversions succeed.
#[verifier::external_body]
pub(crate) fn verify_44(public_key: &[u8], message: &[u8], signature: &[u8]) -> (verdict: Option<bool>)
    requires
        public_key@.len() == 1312,
        signature@.len() == 2420,
    ensures
        verdict == ml_dsa_verdict(MlDsaLevel::Dsa44, public_key@, message@, signature@),
{
    let key = VerifyingKey::<MlDsa44>::decode(&Array::try_from(public_key).unwrap());
    match Signature::<MlDsa44>::decode(&Array::try_from(signature).unwrap()) {
        Some(decoded) => Some(key.verify(message, &decoded).is_ok()),
        None => None,
    }
}

/// As `verify_44`, for ML-DSA-65.
#[verifier::external_body]
pub(crate) fn verify_65(public_key: &[u8], message: &[u8], signature: &[u8]) -> (verdict: Option<bool>)
    requires
        public_key@.len() == 1952,
        signature@.len() == 3309,
    ensures
        verdict == ml_dsa_verdict(MlDsaLevel::Dsa65, public_key@, message@, signature@),
{
    let key = VerifyingKey::<MlDsa65>::decode(&Array::try_from(public_key).unwrap());
    match Signature::<MlDsa65>::decode(&Array::try_from(signature).unwrap()) {
        Some(decoded) => Some(key.verify(message, &decoded).is_ok()),
        None => None,
    }
}

/// As `verify_44`, for ML-DSA-87.
#[verifier::external_body]
pub(crate) fn verify_87(public_key: &[u8], message: &[u8], signature: &[u8]) -> (verdict: Option<bool>)
    requires
        public_key@.len() == 2592,
        signature@.len() == 4627,
    ensures
        verdict == ml_dsa_verdict(MlDsaLevel::Dsa87, public_key@, message@, signature@),
{
    let key = VerifyingKey::<MlDsa87>::decode(&Array::try_from(public_key).unwrap());
    match Signature::<MlDsa87>::decode(&Array::try_from(signature).unwrap()) {
        Some(decoded) => Some(key.verify(message, &decoded).is_ok()),
        None => None,
    }
}

} // verus!
