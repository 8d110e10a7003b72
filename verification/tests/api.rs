use ml_dsa_bip39::{derive_keypair, mnemonic_to_seed, MlDsaLevel};

#[test]
fn test_basic_derivation() {
    let mnemonic = "abandon abandon abandon abandon abandon abandon \
                    abandon abandon abandon abandon abandon about";
    let seed = mnemonic_to_seed(mnemonic, "").unwrap();

    let keypair = derive_keypair(&seed, 0, 0, MlDsaLevel::default()).unwrap();

    // Verify key sizes for ML-DSA-44
    assert_eq!(keypair.public_key().len(), 1312);
    assert_eq!(keypair.seed().len(), 32);
}

#[test]
fn test_determinism() {
    let mnemonic = "abandon abandon abandon abandon abandon abandon \
                    abandon abandon abandon abandon abandon about";
    let seed = mnemonic_to_seed(mnemonic, "").unwrap();

    let kp1 = derive_keypair(&seed, 0, 0, MlDsaLevel::Dsa44).unwrap();
    let kp2 = derive_keypair(&seed, 0, 0, MlDsaLevel::Dsa44).unwrap();

    assert_eq!(kp1.public_key(), kp2.public_key());
    assert_eq!(kp1.seed(), kp2.seed());
}

#[test]
fn test_different_indices_different_keys() {
    let mnemonic = "abandon abandon abandon abandon abandon abandon \
                    abandon abandon abandon abandon abandon about";
    let seed = mnemonic_to_seed(mnemonic, "").unwrap();

    let kp1 = derive_keypair(&seed, 0, 0, MlDsaLevel::Dsa44).unwrap();
    let kp2 = derive_keypair(&seed, 0, 1, MlDsaLevel::Dsa44).unwrap();

    assert_ne!(kp1.public_key(), kp2.public_key());
}

#[test]
fn test_different_levels_different_keys() {
    let mnemonic = "abandon abandon abandon abandon abandon abandon \
                    abandon abandon abandon abandon abandon about";
    let seed = mnemonic_to_seed(mnemonic, "").unwrap();

    let kp44 = derive_keypair(&seed, 0, 0, MlDsaLevel::Dsa44).unwrap();
    let kp65 = derive_keypair(&seed, 0, 0, MlDsaLevel::Dsa65).unwrap();

    // Different levels = different keys (by design)
    assert_ne!(kp44.seed(), kp65.seed());
}

#[test]
fn test_sign_verify() {
    let mnemonic = "abandon abandon abandon abandon abandon abandon \
                    abandon abandon abandon abandon abandon about";
    let seed = mnemonic_to_seed(mnemonic, "").unwrap();
    let keypair = derive_keypair(&seed, 0, 0, MlDsaLevel::Dsa44).unwrap();

    let message = b"test message";
    let signature = keypair.sign(message).unwrap();

    assert!(keypair.verify(message, &signature).unwrap());
    assert!(!keypair.verify(b"wrong message", &signature).unwrap());
}

#[test]
fn test_concrete_example_zero_seed() {
    let seed = [0u8; 64];
    let first = derive_keypair(&seed, 0, 0, MlDsaLevel::Dsa44).unwrap();
    assert_eq!(first.derivation_path(1337, 0, 0), "m/8844'/1337'/0'/0/0");
    let second = derive_keypair(&seed, 0, 0, MlDsaLevel::Dsa44).unwrap();
    assert_eq!(first.seed(), second.seed());
    assert_eq!(first.public_key(), second.public_key());
    assert_eq!(first.seed().len(), 32);
}

#[test]
fn test_round_trip_by_the_methods_at_every_level() {
    let seed = [0u8; 64];
    for level in [MlDsaLevel::Dsa44, MlDsaLevel::Dsa65, MlDsaLevel::Dsa87].iter() {
        let keypair = derive_keypair(&seed, 1, 2, *level).unwrap();
        let signature = keypair.sign(b"round trip").unwrap();
        assert!(keypair.verify(b"round trip", &signature).unwrap());
    }
}

#[test]
fn test_levels_give_different_public_keys() {
    let seed = [9u8; 64];
    let kp44 = derive_keypair(&seed, 0, 0, MlDsaLevel::Dsa44).unwrap();
    let kp65 = derive_keypair(&seed, 0, 0, MlDsaLevel::Dsa65).unwrap();
    let kp87 = derive_keypair(&seed, 0, 0, MlDsaLevel::Dsa87).unwrap();
    assert_ne!(kp44.public_key(), kp65.public_key());
    assert_ne!(kp65.public_key(), kp87.public_key());
    assert_ne!(kp44.public_key(), kp87.public_key());
}
