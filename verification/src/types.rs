//! Key pairs and signatures as plain bytes tagged with their level.

use vstd::prelude::*;
use vstd::slice::slice_to_vec;
use vstd::string::*;
use crate::backend_rustcrypto;
use crate::derivation::{build_path, spec_path};
use crate::error::{signature_size_mismatch, signature_size_text, size_mismatch, size_mismatch_text, Error, ErrorView};
use crate::level::MlDsaLevel;
use crate::primitives::{ml_dsa_public_key, ml_dsa_verdict, wipe};
use crate::text::{decimal, push_decimal};

verus! {

/// A key pair as contracts speak of it.
pub struct KeyPairView {
    pub level: MlDsaLevel,
    pub seed: Seq<u8>,
    pub public_key: Seq<u8>,
}

/// A signature as contracts speak of it.
pub struct SignatureView {
    pub level: MlDsaLevel,
    pub bytes: Seq<u8>,
}

/// An ML-DSA key pair, kept as the 32-byte seed it is generated from and its
/// encoded public key. The signing key is made again from the seed whenever
/// it is needed. The seed is overwritten with zeros when the value is
/// dropped.
pub struct MlDsaKeyPair {
    level: MlDsaLevel,
    seed: [u8; 32],
    public_key: Vec<u8>,
}

/// An encoded ML-DSA signature and the level it was made at.
#[derive(Debug, PartialEq, Eq)]
pub struct MlDsaSignature {
    level: MlDsaLevel,
    bytes: Vec<u8>,
}

impl View for MlDsaKeyPair {
    type V = KeyPairView;

    closed spec fn view(&self) -> KeyPairView {
        KeyPairView { level: self.level, seed: self.seed@, public_key: self.public_key@ }
    }
}

impl View for MlDsaSignature {
    type V = SignatureView;

    closed spec fn view(&self) -> SignatureView {
        SignatureView { level: self.level, bytes: self.bytes@ }
    }
}

/// The variant of a level as it is written in source.
pub open spec fn variant_text(level: MlDsaLevel) -> Seq<char> {
    match level {
        MlDsaLevel::Dsa44 => "Dsa44"@,
        MlDsaLevel::Dsa65 => "Dsa65"@,
        MlDsaLevel::Dsa87 => "Dsa87"@,
    }
}

/// The printable form of a key pair: its level and the length of its public
/// key. The seed has no part in it.
pub open spec fn redacted_text(level: MlDsaLevel, public_key_len: nat) -> Seq<char> {
    "MlDsaKeyPair { level: "@ + variant_text(level) + ", public_key_len: "@ + decimal(
        public_key_len,
    ) + ", seed: \"[REDACTED]\" }"@
}

impl Clone for MlDsaKeyPair {
    fn clone(&self) -> (copy: Self)
        ensures
            copy@ == self@,
    {
        proof {
            use_type_invariant(self);
        }
        let public_key = self.public_key.clone();
        assert(public_key@ =~= self.public_key@);
        MlDsaKeyPair { level: self.level, seed: self.seed, public_key }
    }
}

impl Drop for MlDsaKeyPair {
    /// Overwrites the seed with zeros and leaves the rest as it is.
    fn drop(&mut self)
        ensures
            final(self)@ == (KeyPairView { seed: Seq::new(32, |i: int| 0u8), ..old(self)@ }),
        opens_invariants none
        no_unwind
    {
        proof {
            use_type_invariant(&*self);
        }
        wipe(&mut self.seed);
    }
}

impl Clone for MlDsaSignature {
    fn clone(&self) -> (copy: Self)
        ensures
            copy@ == self@,
    {
        proof {
            use_type_invariant(self);
        }
        let bytes = self.bytes.clone();
        assert(bytes@ =~= self.bytes@);
        MlDsaSignature { level: self.level, bytes }
    }
}

impl MlDsaKeyPair {
    #[verifier::type_invariant]
    spec fn public_key_sized(&self) -> bool {
        self.public_key@.len() == self.level.spec_public_key_size()
    }

    /// Puts a key pair together from its parts.
    pub fn new(level: MlDsaLevel, seed: [u8; 32], public_key: Vec<u8>) -> (keypair: Self)
        requires
            public_key@.len() == level.spec_public_key_size(),
        ensures
            keypair@ == (KeyPairView { level, seed: seed@, public_key: public_key@ }),
    {
        MlDsaKeyPair { level, seed, public_key }
    }

    /// Puts a key pair together from parts that come from outside: a public
    /// key that is not as long as `level` prescribes is refused.
    pub fn from_parts(level: MlDsaLevel, seed: [u8; 32], public_key: Vec<u8>) -> (made: Result<
        Self,
        Error,
    >)
        ensures
            match made {
                Ok(keypair) => public_key@.len() == level.spec_public_key_size() && keypair@ == (
                KeyPairView { level, seed: seed@, public_key: public_key@ }),
                Err(e) => public_key@.len() != level.spec_public_key_size() && e@
                    == ErrorView::InvalidPublicKey(
                    size_mismatch_text(level.spec_public_key_size() as nat, public_key@.len()),
                ),
            },
    {
        if public_key.len() != level.public_key_size() {
            return Err(
                Error::InvalidPublicKey(size_mismatch(level.public_key_size(), public_key.len())),
            );
        }
        Ok(MlDsaKeyPair { level, seed, public_key })
    }

    /// The level of the key pair.
    pub fn level(&self) -> (level: MlDsaLevel)
        ensures
            level == self@.level,
    {
        self.level
    }

    /// The 32-byte seed the key pair is generated from. It is the secret.
    pub fn seed(&self) -> (seed: &[u8; 32])
        ensures
            seed@ == self@.seed,
            seed@.len() == 32,
    {
        &self.seed
    }

    /// The encoded public key, as long as the level prescribes.
    pub fn public_key(&self) -> (public_key: &[u8])
        ensures
            public_key@ == self@.public_key,
            public_key@.len() == self@.level.spec_public_key_size(),
    {
        proof {
            use_type_invariant(self);
        }
        self.public_key.as_slice()
    }

    /// Signs `message` with the key made again from the seed.
    pub fn sign(&self, message: &[u8]) -> (signed: Result<MlDsaSignature, Error>)
        ensures
            signed matches Ok(signature) && signature@ == backend_rustcrypto::spec_sign(
                self@,
                message@,
            ),
            backend_rustcrypto::spec_sign(self@, message@).bytes.len()
                == self@.level.spec_signature_size(),
            ml_dsa_verdict(
                self@.level,
                ml_dsa_public_key(self@.level, self@.seed),
                message@,
                backend_rustcrypto::spec_sign(self@, message@).bytes,
            ) == Some(true),
    {
        backend_rustcrypto::sign(self, message)
    }

    /// Checks `signature` over `message` against the public key of this pair.
    pub fn verify(&self, message: &[u8], signature: &MlDsaSignature) -> (verified: Result<
        bool,
        Error,
    >)
        ensures
            backend_rustcrypto::result_view(verified) == backend_rustcrypto::spec_verify(
                self@.public_key,
                self@.level,
                message@,
                signature@,
            ),
    {
        backend_rustcrypto::verify(self.public_key(), self.level, message, signature)
    }

    /// The derivation path that leads to a key of this pair's level for the
    /// given coin, account and index. It describes; it derives nothing.
    pub fn derivation_path(&self, coin: u32, account: u32, index: u32) -> (path: String)
        ensures
            path@ == spec_path(self@.level.spec_purpose(), coin, account, index),
    {
        build_path(self.level, coin, account, index)
    }

    /// Overwrites the seed with zeros and leaves the rest as it is.
    pub fn zeroize(&mut self)
        ensures
            final(self)@ == (KeyPairView { seed: Seq::new(32, |i: int| 0u8), ..old(self)@ }),
    {
        proof {
            use_type_invariant(&*self);
        }
        wipe(&mut self.seed);
    }

    /// The printable form of the key pair, in which the seed is replaced by
    /// a fixed word.
    pub fn to_debug_string(&self) -> (text: String)
        ensures
            text@ == redacted_text(self@.level, self@.public_key.len()),
    {
        let mut text = String::from_str("MlDsaKeyPair { level: ");
        match self.level {
            MlDsaLevel::Dsa44 => text.append("Dsa44"),
            MlDsaLevel::Dsa65 => text.append("Dsa65"),
            MlDsaLevel::Dsa87 => text.append("Dsa87"),
        }
        text.append(", public_key_len: ");
        push_decimal(&mut text, self.public_key.len() as u64);
        text.append(", seed: \"[REDACTED]\" }");
        text
    }
}

impl MlDsaSignature {
    #[verifier::type_invariant]
    spec fn bytes_sized(&self) -> bool {
        self.bytes@.len() == self.level.spec_signature_size()
    }

    /// Tags signature bytes of the right length with their level.
    pub(crate) fn new(level: MlDsaLevel, bytes: Vec<u8>) -> (signature: Self)
        requires
            bytes@.len() == level.spec_signature_size(),
        ensures
            signature@ == (SignatureView { level, bytes: bytes@ }),
    {
        MlDsaSignature { level, bytes }
    }

    /// Takes signature bytes from outside. They are accepted exactly when
    /// they are as long as a signature of `level`; nothing else is looked at.
    pub fn from_bytes(level: MlDsaLevel, bytes: &[u8]) -> (parsed: Result<Self, Error>)
        ensures
            match parsed {
                Ok(signature) => bytes@.len() == level.spec_signature_size() && signature@ == (
                SignatureView { level, bytes: bytes@ }),
                Err(e) => bytes@.len() != level.spec_signature_size() && e@
                    == ErrorView::InvalidSignature(signature_size_text(level, bytes@.len())),
            },
    {
        if bytes.len() != level.signature_size() {
            return Err(Error::InvalidSignature(signature_size_mismatch(level, bytes.len())));
        }
        Ok(MlDsaSignature { level, bytes: slice_to_vec(bytes) })
    }

    /// The encoded signature, as long as the level prescribes.
    pub fn as_bytes(&self) -> (bytes: &[u8])
        ensures
            bytes@ == self@.bytes,
            bytes@.len() == self@.level.spec_signature_size(),
    {
        proof {
            use_type_invariant(self);
        }
        self.bytes.as_slice()
    }

    /// The level the signature was made at.
    pub fn level(&self) -> (level: MlDsaLevel)
        ensures
            level == self@.level,
    {
        self.level
    }
}

/// The printable form of a key pair does not depend on its seed.
pub proof fn lemma_debug_text_ignores_seed(a: KeyPairView, b: KeyPairView)
    requires
        a.level == b.level,
        a.public_key.len() == b.public_key.len(),
    ensures
        redacted_text(a.level, a.public_key.len()) == redacted_text(b.level, b.public_key.len()),
{
}

} // verus!
