use ml_dsa_bip39::derivation::{build_path, derive_ml_dsa_seed, mnemonic_outcome};
use ml_dsa_bip39::text::push_decimal;
use ml_dsa_bip39::{derive_keypair, derive_keypair_with_coin, mnemonic_to_seed, Error, MlDsaLevel, SILICA_COIN_TYPE};
use sha3::digest::{ExtendableOutput, Update, XofReader};
use sha3::Shake256;

const PHRASE: &str = "abandon abandon abandon abandon abandon abandon \
                      abandon abandon abandon abandon abandon about";

fn hex(bytes: &[u8]) -> String {
    let mut out = String::new();
    for b in bytes {
        out.push_str(&format!("{:02x}", b));
    }
    out
}

fn shake(parts: &[&[u8]]) -> [u8; 32] {
    let mut hasher = Shake256::default();
    for part in parts {
        hasher.update(part);
    }
    let mut out = [0u8; 32];
    hasher.finalize_xof().read(&mut out);
    out
}

#[test]
fn test_mnemonic_to_seed_valid() {
    let result = mnemonic_to_seed(
        "abandon abandon abandon abandon abandon abandon \
         abandon abandon abandon abandon abandon about",
        "",
    );
    assert!(result.is_ok());
    assert_eq!(result.unwrap().len(), 64);
}

#[test]
fn test_mnemonic_to_seed_invalid() {
    let result = mnemonic_to_seed("invalid mnemonic words here", "");
    assert!(result.is_err());
}

#[test]
fn test_passphrase_changes_seed() {
    let mnemonic = "abandon abandon abandon abandon abandon abandon \
                    abandon abandon abandon abandon abandon about";

    let seed1 = mnemonic_to_seed(mnemonic, "").unwrap();
    let seed2 = mnemonic_to_seed(mnemonic, "password").unwrap();

    assert_ne!(seed1, seed2);
}

#[test]
fn test_derive_ml_dsa_seed_determinism() {
    let bip39_seed = [42u8; 64];
    let path = "m/8844'/1337'/0'/0/0";

    let seed1 = derive_ml_dsa_seed(&bip39_seed, path, MlDsaLevel::Dsa44);
    let seed2 = derive_ml_dsa_seed(&bip39_seed, path, MlDsaLevel::Dsa44);

    assert_eq!(seed1, seed2);
}

#[test]
fn test_derive_ml_dsa_seed_different_paths() {
    let bip39_seed = [42u8; 64];

    let seed1 = derive_ml_dsa_seed(&bip39_seed, "m/8844'/1337'/0'/0/0", MlDsaLevel::Dsa44);
    let seed2 = derive_ml_dsa_seed(&bip39_seed, "m/8844'/1337'/0'/0/1", MlDsaLevel::Dsa44);

    assert_ne!(seed1, seed2);
}

#[test]
fn test_derive_ml_dsa_seed_different_levels() {
    let bip39_seed = [42u8; 64];
    let path = "m/8844'/1337'/0'/0/0";

    let seed44 = derive_ml_dsa_seed(&bip39_seed, path, MlDsaLevel::Dsa44);
    let seed65 = derive_ml_dsa_seed(&bip39_seed, path, MlDsaLevel::Dsa65);

    assert_ne!(seed44, seed65);
}

#[test]
fn test_mnemonic_seed_known_answers() {
    let seed = mnemonic_to_seed(PHRASE, "").unwrap();
    assert_eq!(
        hex(&seed),
        "5eb00bbddcf069084889a8ab9155568165f5c453ccb85e70811aaed6f6da5fc1\
         9a5ac40b389cd370d086206dec8aa6c43daea6690f20ad3d8d48b2d2ce9e38e4"
    );
    let seed = mnemonic_to_seed(PHRASE, "TREZOR").unwrap();
    assert_eq!(
        hex(&seed),
        "c55257c360c07c72029aebc1b53c05ed0362ada38ead3e3e9efa3708e5349553\
         1f09a6987599d18264c1e1c92f2cf141630c7a3c4ab7c81b2f001698e7463b04"
    );
}

#[test]
fn test_passphrase_sensitivity_one_letter() {
    let seed1 = mnemonic_to_seed(PHRASE, "").unwrap();
    let seed2 = mnemonic_to_seed(PHRASE, "x").unwrap();
    assert_ne!(seed1, seed2);
}

#[test]
fn test_mnemonic_errors_are_invalid_mnemonic() {
    for phrase in [
        "invalid mnemonic words here",
        "",
        "abandon abandon abandon",
        "abandon abandon abandon abandon abandon abandon \
         abandon abandon abandon abandon abandon abandon",
    ]
    .iter()
    {
        match mnemonic_to_seed(phrase, "") {
            Err(Error::InvalidMnemonic(text)) => assert!(!text.is_empty()),
            other => panic!("unexpected result: {:?}", other.map(|_| ())),
        }
    }
}

#[test]
fn test_mnemonic_outcome() {
    let seed = [7u8; 64];
    match mnemonic_outcome(Ok(seed)) {
        Ok(bytes) => assert_eq!(bytes, seed),
        Err(e) => panic!("unexpected error: {:?}", e),
    }
    match mnemonic_outcome(Err(String::from("bad word"))) {
        Err(Error::InvalidMnemonic(text)) => assert_eq!(text, "bad word"),
        other => panic!("unexpected result: {:?}", other.map(|_| ())),
    }
}

#[test]
fn test_build_path() {
    assert_eq!(build_path(MlDsaLevel::Dsa44, 1337, 0, 0), "m/8844'/1337'/0'/0/0");
    assert_eq!(build_path(MlDsaLevel::Dsa65, 1337, 0, 0), "m/8865'/1337'/0'/0/0");
    assert_eq!(build_path(MlDsaLevel::Dsa87, 1337, 0, 0), "m/8887'/1337'/0'/0/0");
    assert_eq!(build_path(MlDsaLevel::Dsa44, 60, 12, 345), "m/8844'/60'/12'/0/345");
    assert_eq!(
        build_path(MlDsaLevel::Dsa87, u32::MAX, u32::MAX, u32::MAX),
        "m/8887'/4294967295'/4294967295'/0/4294967295"
    );
    assert_eq!(build_path(MlDsaLevel::Dsa44, 0, 10, 100), "m/8844'/0'/10'/0/100");
}

#[test]
fn test_build_path_matches_formatting() {
    for (coin, account, index) in [(0u32, 0u32, 0u32), (9, 10, 11), (99, 100, 101), (1337, 65535, 4000000000)].iter() {
        for level in [MlDsaLevel::Dsa44, MlDsaLevel::Dsa65, MlDsaLevel::Dsa87].iter() {
            assert_eq!(
                build_path(*level, *coin, *account, *index),
                format!("m/{}'/{}'/{}'/0/{}", level.purpose(), coin, account, index)
            );
        }
    }
}

#[test]
fn test_push_decimal() {
    for n in [0u64, 1, 9, 10, 11, 99, 100, 101, 1312, 4627, 4294967295, u64::MAX].iter() {
        let mut text = String::from("n=");
        push_decimal(&mut text, *n);
        assert_eq!(text, format!("n={}", n));
    }
}

#[test]
fn test_scheme_seed_is_shake256_of_separator_seed_and_path() {
    let bip39_seed = [42u8; 64];
    let path = "m/8844'/1337'/0'/0/0";
    for level in [MlDsaLevel::Dsa44, MlDsaLevel::Dsa65, MlDsaLevel::Dsa87].iter() {
        let expected = shake(&[level.domain_separator(), &bip39_seed, path.as_bytes()]);
        assert_eq!(derive_ml_dsa_seed(&bip39_seed, path, *level), expected);
    }
    let unordered = shake(&[&bip39_seed, MlDsaLevel::Dsa44.domain_separator(), path.as_bytes()]);
    assert_ne!(derive_ml_dsa_seed(&bip39_seed, path, MlDsaLevel::Dsa44), unordered);
}

#[test]
fn test_scheme_seed_takes_any_path_string() {
    let bip39_seed = [1u8; 64];
    let empty = derive_ml_dsa_seed(&bip39_seed, "", MlDsaLevel::Dsa44);
    assert_eq!(empty, shake(&[MlDsaLevel::Dsa44.domain_separator(), &bip39_seed]));
    let accented = derive_ml_dsa_seed(&bip39_seed, "clé/é", MlDsaLevel::Dsa44);
    assert_eq!(
        accented,
        shake(&[MlDsaLevel::Dsa44.domain_separator(), &bip39_seed, "clé/é".as_bytes()])
    );
    assert_ne!(empty, accented);
}

#[test]
fn test_scheme_seed_depends_on_the_seed() {
    let path = "m/8844'/1337'/0'/0/0";
    let a = derive_ml_dsa_seed(&[0u8; 64], path, MlDsaLevel::Dsa44);
    let b = derive_ml_dsa_seed(&[1u8; 64], path, MlDsaLevel::Dsa44);
    assert_ne!(a, b);
    assert_ne!(a, [0u8; 32]);
}

#[test]
fn test_derived_keypair_is_generated_from_the_scheme_seed() {
    let seed = [0u8; 64];
    let keypair = derive_keypair(&seed, 0, 0, MlDsaLevel::Dsa44).unwrap();
    let scheme_seed = derive_ml_dsa_seed(&seed, "m/8844'/1337'/0'/0/0", MlDsaLevel::Dsa44);
    assert_eq!(keypair.seed(), &scheme_seed);
    let again = derive_keypair(&seed, 0, 0, MlDsaLevel::Dsa44).unwrap();
    assert_eq!(again.seed(), keypair.seed());
    assert_eq!(again.public_key(), keypair.public_key());
    assert_eq!(keypair.derivation_path(SILICA_COIN_TYPE, 0, 0), "m/8844'/1337'/0'/0/0");
}

#[test]
fn test_default_coin_type() {
    assert_eq!(SILICA_COIN_TYPE, 1337);
    let seed = [5u8; 64];
    let by_default = derive_keypair(&seed, 3, 4, MlDsaLevel::Dsa65).unwrap();
    let explicit = derive_keypair_with_coin(&seed, 1337, 3, 4, MlDsaLevel::Dsa65).unwrap();
    assert_eq!(by_default.seed(), explicit.seed());
    assert_eq!(by_default.public_key(), explicit.public_key());
    let other_coin = derive_keypair_with_coin(&seed, 60, 3, 4, MlDsaLevel::Dsa65).unwrap();
    assert_ne!(other_coin.seed(), explicit.seed());
}

#[test]
fn test_account_and_level_sensitivity() {
    let seed = [5u8; 64];
    let base = derive_keypair(&seed, 0, 0, MlDsaLevel::Dsa44).unwrap();
    let account = derive_keypair(&seed, 1, 0, MlDsaLevel::Dsa44).unwrap();
    let swapped = derive_keypair(&seed, 0, 1, MlDsaLevel::Dsa44).unwrap();
    assert_ne!(base.seed(), account.seed());
    assert_ne!(account.seed(), swapped.seed());
    assert_ne!(base.public_key(), account.public_key());
    let level65 = derive_keypair(&seed, 0, 0, MlDsaLevel::Dsa65).unwrap();
    let level87 = derive_keypair(&seed, 0, 0, MlDsaLevel::Dsa87).unwrap();
    assert_ne!(base.seed(), level65.seed());
    assert_ne!(level65.seed(), level87.seed());
    assert_ne!(base.public_key(), level65.public_key());
}

#[test]
fn test_derived_sizes_at_every_level() {
    let seed = [8u8; 64];
    for level in [MlDsaLevel::Dsa44, MlDsaLevel::Dsa65, MlDsaLevel::Dsa87].iter() {
        let keypair = derive_keypair(&seed, 0, 0, *level).unwrap();
        assert_eq!(keypair.level(), *level);
        assert_eq!(keypair.seed().len(), 32);
        assert_eq!(keypair.public_key().len(), level.public_key_size());
        let signature = keypair.sign(b"sized").unwrap();
        assert_eq!(signature.as_bytes().len(), level.signature_size());
        assert!(keypair.verify(b"sized", &signature).unwrap());
    }
}

#[test]
fn test_hash_seed_input_known_answers_and_wipe() {
    let mut empty: Vec<u8> = Vec::new();
    assert_eq!(
        hex(&ml_dsa_bip39::derivation::hash_seed_input(&mut empty)),
        "46b9dd2b0ba88d13233b3feb743eeb243fcd52ea62b81b82b50c27646ed5762f"
    );
    let mut abc = b"abc".to_vec();
    assert_eq!(
        hex(&ml_dsa_bip39::derivation::hash_seed_input(&mut abc)),
        "483366601360a8771c6863080cc4114d8db44530f8f1e1ee4f94ea37e78b5739"
    );
    assert!(abc.is_empty());
}

#[test]
fn test_hash_seed_input_empties_the_buffer() {
    let mut input = vec![0x5au8; 200];
    let expected = shake(&[&[0x5au8; 200]]);
    let out = ml_dsa_bip39::derivation::hash_seed_input(&mut input);
    assert_eq!(out, expected);
    assert!(input.is_empty());
    assert_eq!(input.len(), 0);
}
