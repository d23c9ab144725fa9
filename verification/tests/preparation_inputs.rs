use fiber_ffi::prepare_state::ckb_preparation_key;
use fiber_ffi::wallet_history::parse_legacy_history_start_block;

const EMPTY_CKB_HASH: &str = "44f4c69744d5f8c55d642062949dcae49bc4e7ef43d388c5a12f42b5633d163e";

#[test]
fn preparation_key_hashes_the_configuration_and_funding_key() {
    let key = ckb_preparation_key(
        "/tmp/fiber/config.yml".to_string(),
        Some("prefix".to_string()),
        &Vec::new(),
        &vec![1u8; 32],
        Some(80),
        None,
        Some(50),
        Some(60),
    )
    .unwrap();
    assert_eq!(key.config_path, "/tmp/fiber/config.yml");
    assert_eq!(key.database_prefix.as_deref(), Some("prefix"));
    assert_eq!(key.config_contents_hash, EMPTY_CKB_HASH);
    assert_eq!(key.funding_pubkey_hash.len(), 64);
    assert_ne!(key.funding_pubkey_hash, EMPTY_CKB_HASH);
    assert_eq!(key.history_start_block, 50);

    let other = ckb_preparation_key(
        "/tmp/fiber/config.yml".to_string(),
        None,
        &b"fiber:\n".to_vec(),
        &vec![2u8; 32],
        None,
        None,
        None,
        None,
    )
    .unwrap();
    assert_ne!(other.config_contents_hash, EMPTY_CKB_HASH);
    assert_eq!(other.config_contents_hash.len(), 64);
    assert_eq!(other.history_start_block, 0);
}

#[test]
fn funding_key_hash_is_the_hash_of_the_public_key_of_the_secret() {
    let secp = secp256k1::Secp256k1::new();
    let secret = secp256k1::SecretKey::from_slice(&[1u8; 32]).unwrap();
    let public = secp256k1::PublicKey::from_secret_key(&secp, &secret).serialize();
    let expected = hex::encode(ckb_hash::blake2b_256(public));
    let key = ckb_preparation_key(
        "config.yml".to_string(),
        None,
        &Vec::new(),
        &vec![1u8; 32],
        None,
        None,
        None,
        None,
    )
    .unwrap();
    assert_eq!(key.funding_pubkey_hash, expected);

    let refused = ckb_preparation_key(
        "config.yml".to_string(),
        None,
        &Vec::new(),
        &vec![0u8; 32],
        None,
        None,
        None,
        None,
    )
    .unwrap_err();
    assert!(refused
        .message
        .starts_with("failed to read the CKB funding key: "));
}

#[test]
fn legacy_history_start_files_hold_a_hex_height() {
    assert_eq!(parse_legacy_history_start_block("f", " 0x2a\n"), Ok(42));
    assert_eq!(
        parse_legacy_history_start_block("f", "42"),
        Err("legacy wallet birthday f must be a 0x-prefixed hexadecimal height".to_string())
    );
    assert_eq!(
        parse_legacy_history_start_block("f", "0x"),
        Err("legacy wallet birthday f has an empty height".to_string())
    );
    assert_eq!(
        parse_legacy_history_start_block("f", "0xzz"),
        Err("invalid legacy wallet birthday f: invalid digit found in string".to_string())
    );
}
