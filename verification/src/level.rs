//! The three ML-DSA parameter sets and their fixed constants.
//!
//! Every constant is a pure function of the level. The table is arranged so
//! that no two levels share a purpose field or a domain separator, which is
//! what keeps keys derived for different levels apart.

use vstd::prelude::*;
use vstd::string::*;

verus! {

/// An ML-DSA parameter set.
#[derive(Debug, Clone, Copy, PartialEq, Eq, Hash, Structural)]
pub enum MlDsaLevel {
    /// ML-DSA-44: category 2, the smallest keys and signatures.
    Dsa44,
    /// ML-DSA-65: category 3.
    Dsa65,
    /// ML-DSA-87: category 5, the largest keys and signatures.
    Dsa87,
}

impl Default for MlDsaLevel {
    fn default() -> (level: Self)
        ensures
            level == MlDsaLevel::Dsa44,
    {
        MlDsaLevel::Dsa44
    }
}

impl MlDsaLevel {
    /// The bytes that open every hash input of this level.
    pub open spec fn spec_domain_separator(&self) -> Seq<u8> {
        match self {
            MlDsaLevel::Dsa44 => "ML-DSA-BIP39:ML-DSA-44:V1".spec_bytes(),
            MlDsaLevel::Dsa65 => "ML-DSA-BIP39:ML-DSA-65:V1".spec_bytes(),
            MlDsaLevel::Dsa87 => "ML-DSA-BIP39:ML-DSA-87:V1".spec_bytes(),
        }
    }

    /// The purpose field of the derivation path.
    pub open spec fn spec_purpose(&self) -> u32 {
        match self {
            MlDsaLevel::Dsa44 => 8844,
            MlDsaLevel::Dsa65 => 8865,
            MlDsaLevel::Dsa87 => 8887,
        }
    }

    /// Length in bytes of an encoded public key.
    pub open spec fn spec_public_key_size(&self) -> usize {
        match self {
            MlDsaLevel::Dsa44 => 1312,
            MlDsaLevel::Dsa65 => 1952,
            MlDsaLevel::Dsa87 => 2592,
        }
    }

    /// Length in bytes of an encoded signature.
    pub open spec fn spec_signature_size(&self) -> usize {
        match self {
            MlDsaLevel::Dsa44 => 2420,
            MlDsaLevel::Dsa65 => 3309,
            MlDsaLevel::Dsa87 => 4627,
        }
    }

    /// Length in bytes of the seed a key is generated from.
    pub open spec fn spec_seed_size(&self) -> usize {
        32
    }

    /// The NIST security category.
    pub open spec fn spec_nist_category(&self) -> u8 {
        match self {
            MlDsaLevel::Dsa44 => 2,
            MlDsaLevel::Dsa65 => 3,
            MlDsaLevel::Dsa87 => 5,
        }
    }

    /// The classical security strength in bits.
    pub open spec fn spec_security_bits(&self) -> u16 {
        match self {
            MlDsaLevel::Dsa44 => 128,
            MlDsaLevel::Dsa65 => 192,
            MlDsaLevel::Dsa87 => 256,
        }
    }

    /// The name the level is printed under.
    pub open spec fn spec_name(&self) -> Seq<char> {
        match self {
            MlDsaLevel::Dsa44 => "ML-DSA-44"@,
            MlDsaLevel::Dsa65 => "ML-DSA-65"@,
            MlDsaLevel::Dsa87 => "ML-DSA-87"@,
        }
    }

    /// The bytes that open every hash input of this level.
    pub fn domain_separator(&self) -> (separator: &'static [u8])
        ensures
            separator@ == self.spec_domain_separator(),
    {
        match self {
            MlDsaLevel::Dsa44 => "ML-DSA-BIP39:ML-DSA-44:V1".as_bytes(),
            MlDsaLevel::Dsa65 => "ML-DSA-BIP39:ML-DSA-65:V1".as_bytes(),
            MlDsaLevel::Dsa87 => "ML-DSA-BIP39:ML-DSA-87:V1".as_bytes(),
        }
    }

    /// The purpose field of the derivation path.
    #[verifier::when_used_as_spec(spec_purpose)]
    pub fn purpose(&self) -> (purpose: u32)
        ensures
            purpose == self.spec_purpose(),
    {
        match self {
            MlDsaLevel::Dsa44 => 8844,
            MlDsaLevel::Dsa65 => 8865,
            MlDsaLevel::Dsa87 => 8887,
        }
    }

    /// Length in bytes of an encoded public key.
    #[verifier::when_used_as_spec(spec_public_key_size)]
    pub fn public_key_size(&self) -> (size: usize)
        ensures
            size == self.spec_public_key_size(),
    {
        match self {
            MlDsaLevel::Dsa44 => 1312,
            MlDsaLevel::Dsa65 => 1952,
            MlDsaLevel::Dsa87 => 2592,
        }
    }

    /// Length in bytes of an encoded signature.
    #[verifier::when_used_as_spec(spec_signature_size)]
    pub fn signature_size(&self) -> (size: usize)
        ensures
            size == self.spec_signature_size(),
    {
        match self {
            MlDsaLevel::Dsa44 => 2420,
            MlDsaLevel::Dsa65 => 3309,
            MlDsaLevel::Dsa87 => 4627,
        }
    }

    /// Length in bytes of the seed a key is generated from: 32 at every level.
    #[verifier::when_used_as_spec(spec_seed_size)]
    pub fn seed_size(&self) -> (size: usize)
        ensures
            size == 32,
            size == self.spec_seed_size(),
    {
        32
    }

    /// The NIST security category.
    #[verifier::when_used_as_spec(spec_nist_category)]
    pub fn nist_category(&self) -> (category: u8)
        ensures
            category == self.spec_nist_category(),
    {
        match self {
            MlDsaLevel::Dsa44 => 2,
            MlDsaLevel::Dsa65 => 3,
            MlDsaLevel::Dsa87 => 5,
        }
    }

    /// The classical security strength in bits.
    #[verifier::when_used_as_spec(spec_security_bits)]
    pub fn security_bits(&self) -> (bits: u16)
        ensures
            bits == self.spec_security_bits(),
    {
        match self {
            MlDsaLevel::Dsa44 => 128,
            MlDsaLevel::Dsa65 => 192,
            MlDsaLevel::Dsa87 => 256,
        }
    }

    /// The name the level is printed under.
    pub fn name(&self) -> (name: &'static str)
        ensures
            name@ == self.spec_name(),
    {
        match self {
            MlDsaLevel::Dsa44 => "ML-DSA-44",
            MlDsaLevel::Dsa65 => "ML-DSA-65",
            MlDsaLevel::Dsa87 => "ML-DSA-87",
        }
    }
}

/// Two different levels never share a purpose field.
pub proof fn lemma_purposes_distinct(a: MlDsaLevel, b: MlDsaLevel)
    requires
        a != b,
    ensures
        a.spec_purpose() != b.spec_purpose(),
{
}

/// Every domain separator is 25 bytes long and made of ASCII bytes only.
pub proof fn lemma_domain_separator_shape(level: MlDsaLevel)
    ensures
        level.spec_domain_separator().len() == 25,
        forall|i: int| 0 <= i < 25 ==> #[trigger] level.spec_domain_separator()[i] < 0x80,
{
    let s44: &str = "ML-DSA-BIP39:ML-DSA-44:V1";
    let s65: &str = "ML-DSA-BIP39:ML-DSA-65:V1";
    let s87: &str = "ML-DSA-BIP39:ML-DSA-87:V1";
    reveal_strlit("ML-DSA-BIP39:ML-DSA-44:V1");
    reveal_strlit("ML-DSA-BIP39:ML-DSA-65:V1");
    reveal_strlit("ML-DSA-BIP39:ML-DSA-87:V1");
    assert(is_ascii(s44) && is_ascii(s65) && is_ascii(s87));
    is_ascii_spec_bytes(s44);
    is_ascii_spec_bytes(s65);
    is_ascii_spec_bytes(s87);
}

/// Two different levels never share a domain separator, and neither
/// separator is the beginning of the other.
pub proof fn lemma_domain_separators_distinct(a: MlDsaLevel, b: MlDsaLevel)
    requires
        a != b,
    ensures
        a.spec_domain_separator() != b.spec_domain_separator(),
        !a.spec_domain_separator().is_prefix_of(b.spec_domain_separator()),
        a.spec_domain_separator()[20] != b.spec_domain_separator()[20],
{
    let s44: &str = "ML-DSA-BIP39:ML-DSA-44:V1";
    let s65: &str = "ML-DSA-BIP39:ML-DSA-65:V1";
    let s87: &str = "ML-DSA-BIP39:ML-DSA-87:V1";
    reveal_strlit("ML-DSA-BIP39:ML-DSA-44:V1");
    reveal_strlit("ML-DSA-BIP39:ML-DSA-65:V1");
    reveal_strlit("ML-DSA-BIP39:ML-DSA-87:V1");
    assert(is_ascii(s44) && is_ascii(s65) && is_ascii(s87));
    is_ascii_spec_bytes(s44);
    is_ascii_spec_bytes(s65);
    is_ascii_spec_bytes(s87);
    assert(s44.spec_bytes()[20] == 0x34u8);
    assert(s65.spec_bytes()[20] == 0x36u8);
    assert(s87.spec_bytes()[20] == 0x38u8);
    let x = a.spec_domain_separator();
    let y = b.spec_domain_separator();
    assert(x.len() == 25 && y.len() == 25);
    assert(x[20] != y[20]);
    if x.is_prefix_of(y) {
        assert(x == y.subrange(0, 25));
        assert(y.subrange(0, 25)[20] == y[20]);
    }
}

} // verus!
