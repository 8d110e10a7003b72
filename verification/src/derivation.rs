//! From a mnemonic to a 64-byte seed, and from that seed and a derivation
//! path to an ML-DSA key pair.
//!
//! The seed of a key is the first 32 bytes of SHAKE256 over three parts in
//! this order: the domain separator of the level, the 64-byte seed, the
//! derivation path in UTF-8. Two derivations that differ in level, seed or
//! path hash different inputs.

use vstd::prelude::*;
use vstd::string::*;
use vstd::utf8::{encode_utf8, encode_utf8_decode_utf8};
use crate::backend_rustcrypto::{generate_keypair, spec_generate_keypair};
use crate::error::{Error, ErrorView};
use crate::level::{lemma_domain_separator_shape, lemma_domain_separators_distinct, MlDsaLevel};
use crate::primitives::{bip39_seed, ml_dsa_public_key, mnemonic_seed, shake256_32, shake256_read_32, wipe, wipe_buffer};
use crate::text::{decimal, is_digit, lemma_concat_assoc, lemma_decimal_injective, lemma_numeral_split, lemma_strip_prefix, push_decimal};
use crate::types::{KeyPairView, MlDsaKeyPair, MlDsaSignature};
use crate::SILICA_COIN_TYPE;

verus! {

/// The derivation path `m/purpose'/coin'/account'/0/index`.
pub open spec fn spec_path(purpose: u32, coin: u32, account: u32, index: u32) -> Seq<char> {
    "m/"@ + decimal(purpose as nat) + "'/"@ + decimal(coin as nat) + "'/"@ + decimal(
        account as nat,
    ) + "'/0/"@ + decimal(index as nat)
}

/// The bytes that are hashed into the seed of a key.
pub open spec fn spec_seed_input(seed: Seq<u8>, path: Seq<char>, level: MlDsaLevel) -> Seq<u8> {
    level.spec_domain_separator() + seed + encode_utf8(path)
}

/// The 32-byte seed of the key at `path` under `seed` and `level`.
pub open spec fn spec_scheme_seed(seed: Seq<u8>, path: Seq<char>, level: MlDsaLevel) -> Seq<u8> {
    shake256_32(spec_seed_input(seed, path, level))
}

/// The key pair of a coin, an account and an index under `seed` at `level`.
pub open spec fn spec_derive_keypair(
    seed: Seq<u8>,
    coin: u32,
    account: u32,
    index: u32,
    level: MlDsaLevel,
) -> KeyPairView {
    spec_generate_keypair(
        level,
        spec_scheme_seed(seed, spec_path(level.spec_purpose(), coin, account, index), level),
    )
}

/// What becomes of the outcome of the mnemonic primitive: a seed is handed
/// on, a rejection is reported as an invalid mnemonic with the text given.
pub open spec fn spec_mnemonic_outcome(outcome: Result<[u8; 64], String>) -> Result<
    Seq<u8>,
    ErrorView,
> {
    match outcome {
        Ok(seed) => Ok(seed@),
        Err(text) => Err(ErrorView::InvalidMnemonic(text@)),
    }
}

/// A seed result as contracts speak of it.
pub open spec fn seed_result_view(result: Result<[u8; 64], Error>) -> Result<Seq<u8>, ErrorView> {
    match result {
        Ok(seed) => Ok(seed@),
        Err(e) => Err(e@),
    }
}

/// Turns the outcome of the mnemonic primitive into the result of
/// `mnemonic_to_seed`.
pub fn mnemonic_outcome(outcome: Result<[u8; 64], String>) -> (result: Result<[u8; 64], Error>)
    ensures
        seed_result_view(result) == spec_mnemonic_outcome(outcome),
{
    match outcome {
        Ok(seed) => Ok(seed),
        Err(text) => Err(Error::InvalidMnemonic(text)),
    }
}

/// The 64-byte seed of a mnemonic phrase and a passphrase. A phrase that is
/// not a valid mnemonic is an `InvalidMnemonic` error.
pub fn mnemonic_to_seed(mnemonic: &str, passphrase: &str) -> (result: Result<[u8; 64], Error>)
    ensures
        match bip39_seed(mnemonic@, passphrase@) {
            Some(seed) => result matches Ok(bytes) && bytes@ == seed,
            None => result matches Err(e) && e@ is InvalidMnemonic,
        },
{
    mnemonic_outcome(mnemonic_seed(mnemonic, passphrase))
}

/// Renders the derivation path of a key: the purpose is that of `level`.
pub fn build_path(level: MlDsaLevel, coin: u32, account: u32, index: u32) -> (path: String)
    ensures
        path@ == spec_path(level.spec_purpose(), coin, account, index),
{
    let mut path = String::from_str("m/");
    push_decimal(&mut path, level.purpose() as u64);
    path.append("'/");
    push_decimal(&mut path, coin as u64);
    path.append("'/");
    push_decimal(&mut path, account as u64);
    path.append("'/0/");
    push_decimal(&mut path, index as u64);
    path
}

/// Derives the 32-byte seed of the key at `path`: the domain separator of
/// `level`, then the 64-byte seed, then the path are hashed with SHAKE256,
/// and 32 bytes are read.
pub fn derive_ml_dsa_seed(bip39_seed: &[u8; 64], path: &str, level: MlDsaLevel) -> (scheme_seed:
    [u8; 32])
    ensures
        scheme_seed@ == spec_scheme_seed(bip39_seed@, path@, level),
{
    let separator = level.domain_separator();
    let path_bytes = path.as_bytes();
    proof {
        lemma_domain_separator_shape(level);
    }
    // Room for all three parts at once: the buffer is never moved, so the
    // wipe below reaches every copy of the seed it has held.
    let mut input: Vec<u8> = match path_bytes.len().checked_add(separator.len() + 64) {
        Some(length) => Vec::with_capacity(length),
        None => Vec::new(),
    };
    input.extend_from_slice(separator);
    input.extend_from_slice(bip39_seed.as_slice());
    input.extend_from_slice(path_bytes);
    assert(input@ =~= spec_seed_input(bip39_seed@, path@, level));
    hash_seed_input(&mut input)
}

/// Hashes a buffer into the seed of a key: 32 bytes of SHAKE256 are read,
/// and the buffer, which holds secret bytes, is overwritten with zeros and
/// emptied.
pub fn hash_seed_input(input: &mut Vec<u8>) -> (scheme_seed: [u8; 32])
    ensures
        scheme_seed@ == shake256_32(old(input)@),
        final(input)@ == Seq::<u8>::empty(),
{
    let scheme_seed = shake256_read_32(input.as_slice());
    wipe_buffer(input);
    scheme_seed
}

/// Derives the key pair of an account and an index for the coin type
/// `SILICA_COIN_TYPE`.
pub fn derive_keypair(seed: &[u8; 64], account: u32, index: u32, level: MlDsaLevel) -> (derived:
    Result<MlDsaKeyPair, Error>)
    ensures
        derived matches Ok(keypair) && keypair@ == spec_derive_keypair(
            seed@,
            SILICA_COIN_TYPE,
            account,
            index,
            level,
        ),
        spec_derive_keypair(seed@, SILICA_COIN_TYPE, account, index, level).seed.len() == 32,
        spec_derive_keypair(seed@, SILICA_COIN_TYPE, account, index, level).public_key.len()
            == level.spec_public_key_size(),
{
    derive_keypair_with_coin(seed, SILICA_COIN_TYPE, account, index, level)
}

/// Derives the key pair of a coin, an account and an index: the path is
/// rendered, the seed of the key is derived from it, and the key pair is
/// generated from that seed.
pub fn derive_keypair_with_coin(
    seed: &[u8; 64],
    coin: u32,
    account: u32,
    index: u32,
    level: MlDsaLevel,
) -> (derived: Result<MlDsaKeyPair, Error>)
    ensures
        derived matches Ok(keypair) && keypair@ == spec_derive_keypair(
            seed@,
            coin,
            account,
            index,
            level,
        ),
        spec_derive_keypair(seed@, coin, account, index, level).seed.len() == 32,
        spec_derive_keypair(seed@, coin, account, index, level).public_key.len()
            == level.spec_public_key_size(),
{
    let path = build_path(level, coin, account, index);
    let mut scheme_seed = derive_ml_dsa_seed(seed, path.as_str(), level);
    let derived = generate_keypair(level, &scheme_seed);
    wipe(&mut scheme_seed);
    derived
}

/// A path bracketed from the right: each numeral stands before the rest of
/// the path.
spec fn nested_path(
    head: Seq<char>,
    sep: Seq<char>,
    last: Seq<char>,
    purpose: nat,
    coin: nat,
    account: nat,
    index: nat,
) -> Seq<char> {
    head + (decimal(purpose) + (sep + (decimal(coin) + (sep + (decimal(account) + (last + decimal(
        index,
    )))))))
}

proof fn lemma_path_is_nested(purpose: u32, coin: u32, account: u32, index: u32)
    ensures
        spec_path(purpose, coin, account, index) == nested_path(
            "m/"@,
            "'/"@,
            "'/0/"@,
            purpose as nat,
            coin as nat,
            account as nat,
            index as nat,
        ),
{
    let h = "m/"@;
    let s = "'/"@;
    let l = "'/0/"@;
    let p = decimal(purpose as nat);
    let c = decimal(coin as nat);
    let a = decimal(account as nat);
    let i = decimal(index as nat);
    lemma_concat_assoc(h + p + s + c + s + a, l, i);
    lemma_concat_assoc(h + p + s + c + s, a, l + i);
    lemma_concat_assoc(h + p + s + c, s, a + (l + i));
    lemma_concat_assoc(h + p + s, c, s + (a + (l + i)));
    lemma_concat_assoc(h + p, s, c + (s + (a + (l + i))));
    lemma_concat_assoc(h, p, s + (c + (s + (a + (l + i)))));
}

proof fn lemma_nested_path_injective(
    head: Seq<char>,
    sep: Seq<char>,
    last: Seq<char>,
    purpose1: nat,
    coin1: nat,
    account1: nat,
    index1: nat,
    purpose2: nat,
    coin2: nat,
    account2: nat,
    index2: nat,
)
    requires
        sep.len() > 0 && !is_digit(sep[0]),
        last.len() > 0 && !is_digit(last[0]),
        nested_path(head, sep, last, purpose1, coin1, account1, index1) == nested_path(
            head,
            sep,
            last,
            purpose2,
            coin2,
            account2,
            index2,
        ),
    ensures
        purpose1 == purpose2,
        coin1 == coin2,
        account1 == account2,
        index1 == index2,
{
    let after_account1 = last + decimal(index1);
    let after_account2 = last + decimal(index2);
    let after_coin1 = sep + (decimal(account1) + after_account1);
    let after_coin2 = sep + (decimal(account2) + after_account2);
    let after_purpose1 = sep + (decimal(coin1) + after_coin1);
    let after_purpose2 = sep + (decimal(coin2) + after_coin2);
    lemma_strip_prefix(head, decimal(purpose1) + after_purpose1, decimal(purpose2) + after_purpose2);
    assert(after_purpose1[0] == sep[0] && after_purpose2[0] == sep[0]);
    lemma_numeral_split(purpose1, after_purpose1, purpose2, after_purpose2);
    lemma_strip_prefix(sep, decimal(coin1) + after_coin1, decimal(coin2) + after_coin2);
    assert(after_coin1[0] == sep[0] && after_coin2[0] == sep[0]);
    lemma_numeral_split(coin1, after_coin1, coin2, after_coin2);
    lemma_strip_prefix(sep, decimal(account1) + after_account1, decimal(account2) + after_account2);
    assert(after_account1[0] == last[0] && after_account2[0] == last[0]);
    lemma_numeral_split(account1, after_account1, account2, after_account2);
    lemma_strip_prefix(last, decimal(index1), decimal(index2));
    lemma_decimal_injective(index1, index2);
}

/// The path names its four fields: two paths are equal only if purpose,
/// coin, account and index are.
pub proof fn lemma_path_injective(
    purpose1: u32,
    coin1: u32,
    account1: u32,
    index1: u32,
    purpose2: u32,
    coin2: u32,
    account2: u32,
    index2: u32,
)
    requires
        spec_path(purpose1, coin1, account1, index1) == spec_path(
            purpose2,
            coin2,
            account2,
            index2,
        ),
    ensures
        purpose1 == purpose2,
        coin1 == coin2,
        account1 == account2,
        index1 == index2,
{
    lemma_path_is_nested(purpose1, coin1, account1, index1);
    lemma_path_is_nested(purpose2, coin2, account2, index2);
    assert("'/"@.len() > 0 && !is_digit("'/"@[0]) && "'/0/"@.len() > 0 && !is_digit("'/0/"@[0])) by {
        reveal_strlit("'/");
        reveal_strlit("'/0/");
    }
    lemma_nested_path_injective(
        "m/"@,
        "'/"@,
        "'/0/"@,
        purpose1 as nat,
        coin1 as nat,
        account1 as nat,
        index1 as nat,
        purpose2 as nat,
        coin2 as nat,
        account2 as nat,
        index2 as nat,
    );
}

/// The hash input names its three parts: for seeds of 64 bytes, two inputs
/// are equal only if level, seed and path are. This is what domain
/// separation rests on; that different inputs hash to different seeds is
/// the collision resistance of SHAKE256 and is not stated here.
pub proof fn lemma_seed_input_injective(
    seed1: Seq<u8>,
    path1: Seq<char>,
    level1: MlDsaLevel,
    seed2: Seq<u8>,
    path2: Seq<char>,
    level2: MlDsaLevel,
)
    requires
        seed1.len() == 64,
        seed2.len() == 64,
        spec_seed_input(seed1, path1, level1) == spec_seed_input(seed2, path2, level2),
    ensures
        level1 == level2,
        seed1 == seed2,
        path1 == path2,
{
    let d1 = level1.spec_domain_separator();
    let d2 = level2.spec_domain_separator();
    let x = spec_seed_input(seed1, path1, level1);
    let y = spec_seed_input(seed2, path2, level2);
    lemma_domain_separator_shape(level1);
    lemma_domain_separator_shape(level2);
    if level1 != level2 {
        lemma_domain_separators_distinct(level1, level2);
        assert(x[20] == d1[20] && y[20] == d2[20]);
        assert(false);
    }
    assert(x =~= d1 + (seed1 + encode_utf8(path1)));
    assert(y =~= d1 + (seed2 + encode_utf8(path2)));
    lemma_strip_prefix(d1, seed1 + encode_utf8(path1), seed2 + encode_utf8(path2));
    let u = seed1 + encode_utf8(path1);
    let v = seed2 + encode_utf8(path2);
    assert(seed1 =~= u.subrange(0, 64));
    assert(seed2 =~= v.subrange(0, 64));
    lemma_strip_prefix(seed1, encode_utf8(path1), encode_utf8(path2));
    encode_utf8_decode_utf8(path1);
    encode_utf8_decode_utf8(path2);
}

/// Two derivations from seeds of 64 bytes hash the same input only if they
/// agree in seed, level, coin, account and index.
pub proof fn lemma_derivation_input_injective(
    seed1: Seq<u8>,
    coin1: u32,
    account1: u32,
    index1: u32,
    level1: MlDsaLevel,
    seed2: Seq<u8>,
    coin2: u32,
    account2: u32,
    index2: u32,
    level2: MlDsaLevel,
)
    requires
        seed1.len() == 64,
        seed2.len() == 64,
        spec_seed_input(
            seed1,
            spec_path(level1.spec_purpose(), coin1, account1, index1),
            level1,
        ) == spec_seed_input(
            seed2,
            spec_path(level2.spec_purpose(), coin2, account2, index2),
            level2,
        ),
    ensures
        seed1 == seed2,
        coin1 == coin2,
        account1 == account2,
        index1 == index2,
        level1 == level2,
{
    let path1 = spec_path(level1.spec_purpose(), coin1, account1, index1);
    let path2 = spec_path(level2.spec_purpose(), coin2, account2, index2);
    lemma_seed_input_injective(seed1, path1, level1, seed2, path2, level2);
    lemma_path_injective(
        level1.spec_purpose(),
        coin1,
        account1,
        index1,
        level2.spec_purpose(),
        coin2,
        account2,
        index2,
    );
}

/// Derivation is a function of its arguments: whatever two calls of
/// `derive_keypair` with the same seed, account, index and level return,
/// both are key pairs, with the same seed and the same public key.
pub proof fn lemma_derive_keypair_deterministic(
    seed: &[u8; 64],
    account: u32,
    index: u32,
    level: MlDsaLevel,
    first: Result<MlDsaKeyPair, Error>,
    second: Result<MlDsaKeyPair, Error>,
)
    requires
        call_ensures(derive_keypair, (seed, account, index, level), first),
        call_ensures(derive_keypair, (seed, account, index, level), second),
    ensures
        first matches Ok(a) && second matches Ok(b) && a@.seed == b@.seed && a@.public_key
            == b@.public_key && a@.level == level && b@.level == level,
{
}

/// A collision of SHAKE256: two different inputs whose first 32 output
/// bytes are the same.
pub open spec fn shake256_collision(a: Seq<u8>, b: Seq<u8>) -> bool {
    a != b && shake256_32(a) == shake256_32(b)
}

/// A collision of key generation at `level`: two different seeds with the
/// same public key.
pub open spec fn keygen_collision(level: MlDsaLevel, a: Seq<u8>, b: Seq<u8>) -> bool {
    a != b && ml_dsa_public_key(level, a) == ml_dsa_public_key(level, b)
}

/// Seeds of keys coincide only where SHAKE256 collides: two derivations
/// from seeds of 64 bytes that differ in level, seed or path and yet give
/// the same 32 bytes are a collision of the hash.
pub proof fn lemma_equal_scheme_seeds_collide(
    seed1: Seq<u8>,
    path1: Seq<char>,
    level1: MlDsaLevel,
    seed2: Seq<u8>,
    path2: Seq<char>,
    level2: MlDsaLevel,
)
    requires
        seed1.len() == 64,
        seed2.len() == 64,
        level1 != level2 || seed1 != seed2 || path1 != path2,
        spec_scheme_seed(seed1, path1, level1) == spec_scheme_seed(seed2, path2, level2),
    ensures
        shake256_collision(
            spec_seed_input(seed1, path1, level1),
            spec_seed_input(seed2, path2, level2),
        ),
{
    if spec_seed_input(seed1, path1, level1) == spec_seed_input(seed2, path2, level2) {
        lemma_seed_input_injective(seed1, path1, level1, seed2, path2, level2);
    }
}

/// Keys of one seed and one level coincide only where a primitive collides:
/// two derivations that differ in coin, account or index and yet give the
/// same seed of the key are a collision of SHAKE256, and two that give the
/// same public key are a collision of SHAKE256 or of key generation.
pub proof fn lemma_equal_derived_keys_collide(
    seed: Seq<u8>,
    coin1: u32,
    account1: u32,
    index1: u32,
    coin2: u32,
    account2: u32,
    index2: u32,
    level: MlDsaLevel,
)
    requires
        seed.len() == 64,
        coin1 != coin2 || account1 != account2 || index1 != index2,
    ensures
        ({
            let input1 = spec_seed_input(
                seed,
                spec_path(level.spec_purpose(), coin1, account1, index1),
                level,
            );
            let input2 = spec_seed_input(
                seed,
                spec_path(level.spec_purpose(), coin2, account2, index2),
                level,
            );
            let first = spec_derive_keypair(seed, coin1, account1, index1, level);
            let second = spec_derive_keypair(seed, coin2, account2, index2, level);
            &&& input1 != input2
            &&& first.seed == second.seed ==> shake256_collision(input1, input2)
            &&& first.public_key == second.public_key ==> shake256_collision(input1, input2)
                || keygen_collision(level, first.seed, second.seed)
        }),
{
    let input1 = spec_seed_input(
        seed,
        spec_path(level.spec_purpose(), coin1, account1, index1),
        level,
    );
    let input2 = spec_seed_input(
        seed,
        spec_path(level.spec_purpose(), coin2, account2, index2),
        level,
    );
    if input1 == input2 {
        lemma_derivation_input_injective(
            seed,
            coin1,
            account1,
            index1,
            level,
            seed,
            coin2,
            account2,
            index2,
            level,
        );
    }
}

/// Keys of two levels are never the same: whatever `derive_keypair` returns
/// for one seed, account and index at two different levels, the public keys
/// differ, and the seeds of the keys are equal only where SHAKE256 collides.
pub proof fn lemma_levels_give_different_keys(
    seed: &[u8; 64],
    account: u32,
    index: u32,
    level1: MlDsaLevel,
    level2: MlDsaLevel,
    first: Result<MlDsaKeyPair, Error>,
    second: Result<MlDsaKeyPair, Error>,
)
    requires
        level1 != level2,
        call_ensures(derive_keypair, (seed, account, index, level1), first),
        call_ensures(derive_keypair, (seed, account, index, level2), second),
    ensures
        first matches Ok(a) && second matches Ok(b) && a@.public_key != b@.public_key && (a@.seed
            == b@.seed ==> shake256_collision(
            spec_seed_input(
                seed@,
                spec_path(level1.spec_purpose(), SILICA_COIN_TYPE, account, index),
                level1,
            ),
            spec_seed_input(
                seed@,
                spec_path(level2.spec_purpose(), SILICA_COIN_TYPE, account, index),
                level2,
            ),
        )),
{
    let path1 = spec_path(level1.spec_purpose(), SILICA_COIN_TYPE, account, index);
    let path2 = spec_path(level2.spec_purpose(), SILICA_COIN_TYPE, account, index);
    if spec_seed_input(seed@, path1, level1) == spec_seed_input(seed@, path2, level2) {
        lemma_seed_input_injective(seed@, path1, level1, seed@, path2, level2);
    }
}

/// Signing and verifying with a derived key pair go round: whatever
/// `derive_keypair` returns, whatever the `sign` of that key pair returns
/// for a message, and whatever its `verify` returns for the message and
/// that signature, the last is `Ok(true)`.
pub proof fn lemma_derived_keypair_round_trip(
    seed: &[u8; 64],
    account: u32,
    index: u32,
    level: MlDsaLevel,
    keypair: MlDsaKeyPair,
    message: &[u8],
    signature: MlDsaSignature,
    verified: Result<bool, Error>,
)
    requires
        call_ensures(derive_keypair, (seed, account, index, level), Ok(keypair)),
        call_ensures(MlDsaKeyPair::sign, (&keypair, message), Ok(signature)),
        call_ensures(MlDsaKeyPair::verify, (&keypair, message, &signature), verified),
    ensures
        verified == Ok::<bool, Error>(true),
{
}

} // verus!
