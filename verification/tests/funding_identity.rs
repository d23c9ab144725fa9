use fiber_ffi::ckb_script::{Script, ScriptHashType};
use fiber_ffi::ffi_params::CText;
use fiber_ffi::ffi_types::FiberFfiStatus;
use bech32::ToBase32;
use ckb_types::prelude::Entity;
use fiber_ffi::ckb_script::CkbNetwork;
use fiber_ffi::funding_identity::{
    funding_address_of, funding_lock_from_discovery_options, funding_lock_from_type_script,
    lock_address, lock_args_hex, parse_addr_type, parse_pubkey, strip_hex_prefix,
};
use fiber_ffi::native::TransportType;

fn text(value: &str) -> CText {
    CText::Text(value.to_string())
}

fn same(a: &Script, b: &Script) -> bool {
    a.code_hash == b.code_hash && a.hash_type == b.hash_type && a.args == b.args
}

#[test]
fn discovery_wallet_identity_accepts_lock_args_pubkey_or_address() {
    let secret_key = secp256k1::SecretKey::from_slice(&[1u8; 32]).unwrap();
    let secp = secp256k1::Secp256k1::new();
    let pubkey = secp256k1::PublicKey::from_secret_key(&secp, &secret_key);
    let payload = ckb_sdk::AddressPayload::from_pubkey(&pubkey);
    let lock_args = format!("0x{}", hex::encode(payload.args()));
    let pubkey = hex::encode(pubkey.serialize());
    let address =
        ckb_sdk::Address::new(ckb_sdk::NetworkType::Testnet, payload, true).to_string();

    let expected = funding_lock_from_discovery_options(&text(&lock_args), &CText::Null, &CText::Null)
        .unwrap_or_else(|err| panic!("{}", err.message));
    let by_pubkey = funding_lock_from_discovery_options(&CText::Null, &text(&pubkey), &CText::Null)
        .unwrap_or_else(|err| panic!("{}", err.message));
    assert!(same(&by_pubkey, &expected));
    let by_address =
        funding_lock_from_discovery_options(&CText::Null, &CText::Null, &text(&address))
            .unwrap_or_else(|err| panic!("{}", err.message));
    assert!(same(&by_address, &expected));
    assert_eq!(expected.hash_type, ScriptHashType::Type);
    assert_eq!(expected.args.len(), 20);
    assert_eq!(
        hex::encode(&expected.code_hash),
        "9bd7e06f3ecf4be0f2fcd2188b23f1b9fcc88e5d4b65a8637b17723bbda3cce8"
    );
}

#[test]
fn discovery_wallet_identity_requires_exactly_one_input() {
    assert!(
        funding_lock_from_discovery_options(&CText::Null, &CText::Null, &CText::Null).is_err()
    );

    let error = funding_lock_from_discovery_options(
        &text("0x0000000000000000000000000000000000000000"),
        &CText::Null,
        &text("ckt1qyqqqqqqqqqqqqqqqqqqqqqqqqqqqqqqqqqqgp8n6a"),
    )
    .unwrap_err();
    assert_eq!(
        error.message,
        "exactly one of lock_args, pubkey, and address must be supplied"
    );
}

#[test]
fn blank_identities_do_not_count_and_bad_ones_are_explained() {
    let lock = funding_lock_from_discovery_options(
        &text("0000000000000000000000000000000000000000"),
        &text("   "),
        &text(""),
    )
    .unwrap();
    assert_eq!(lock.args, vec![0u8; 20]);

    let error =
        funding_lock_from_discovery_options(&text("0x00"), &CText::Null, &CText::Null).unwrap_err();
    assert_eq!(error.status, FiberFfiStatus::InvalidArgument);
    assert_eq!(
        error.message,
        "lock_args must be exactly 20 bytes: Invalid length: 1"
    );

    let error =
        funding_lock_from_discovery_options(&text("0xzz"), &CText::Null, &CText::Null).unwrap_err();
    assert_eq!(
        error.message,
        "invalid lock_args hex: Invalid character 'z' at position 0"
    );

    let error = funding_lock_from_discovery_options(&CText::Null, &text("02ff"), &CText::Null)
        .unwrap_err();
    assert_eq!(
        error.message,
        "invalid CKB secp256k1 pubkey: malformed public key"
    );

    let error = funding_lock_from_discovery_options(
        &CText::NotUtf8("bad text".to_string()),
        &text("x"),
        &CText::Null,
    )
    .unwrap_err();
    assert_eq!(error.message, "bad text");

    let error =
        funding_lock_from_discovery_options(&CText::Null, &CText::Null, &text("not-an-address"))
            .unwrap_err();
    assert!(error.message.starts_with("invalid CKB address: "));
}

#[test]
fn node_keys_are_33_byte_compressed_points() {
    let secret_key = secp256k1::SecretKey::from_slice(&[7u8; 32]).unwrap();
    let secp = secp256k1::Secp256k1::new();
    let key = secp256k1::PublicKey::from_secret_key(&secp, &secret_key).serialize();
    let parsed = parse_pubkey(&format!("0x{}", hex::encode(key))).unwrap();
    assert_eq!(parsed.bytes, key.to_vec());
    assert_eq!(
        parse_pubkey("0x02").unwrap_err().message,
        "pubkey must be 33 bytes compressed secp256k1 key"
    );
    assert_eq!(
        parse_pubkey("abc").unwrap_err().message,
        "invalid pubkey hex: Odd number of digits"
    );
    let mut not_a_point = [0u8; 33];
    not_a_point[0] = 5;
    assert_eq!(
        parse_pubkey(&hex::encode(not_a_point)).unwrap_err().message,
        "invalid pubkey: malformed public key"
    );
    assert_eq!(strip_hex_prefix("0xab"), "ab");
    assert_eq!(strip_hex_prefix("ab"), "ab");
}

#[test]
fn address_types_ignore_case() {
    assert_eq!(parse_addr_type(None).unwrap(), None);
    assert_eq!(parse_addr_type(Some("")).unwrap(), None);
    assert_eq!(parse_addr_type(Some("TCP")).unwrap(), Some(TransportType::Tcp));
    assert_eq!(parse_addr_type(Some("wss")).unwrap(), Some(TransportType::Wss));
    assert_eq!(
        parse_addr_type(Some("quic")).unwrap_err().message,
        "addr_type must be tcp, ws, or wss"
    );
}

#[test]
fn malformed_bech32_payloads_fail_like_a_panic_instead_of_aborting() {
    let empty = bech32::encode("ckt", Vec::<bech32::u5>::new(), bech32::Variant::Bech32m).unwrap();
    let error = funding_lock_from_discovery_options(&CText::Null, &CText::Null, &text(&empty))
        .unwrap_err();
    assert_eq!(error.status, FiberFfiStatus::Panic);
    assert_eq!(error.message, "fiber ffi call panicked");

    let mut data = vec![0u8; 34].to_base32();
    *data.last_mut().unwrap() = bech32::u5::try_from_u8(1).unwrap();
    let padded = bech32::encode("ckb", data, bech32::Variant::Bech32m).unwrap();
    let error = funding_lock_from_discovery_options(&CText::Null, &CText::Null, &text(&padded))
        .unwrap_err();
    assert_eq!(error.status, FiberFfiStatus::Panic);

    let foreign = bech32::encode("bc", Vec::<bech32::u5>::new(), bech32::Variant::Bech32).unwrap();
    let error = funding_lock_from_discovery_options(&CText::Null, &CText::Null, &text(&foreign))
        .unwrap_err();
    assert_eq!(error.status, FiberFfiStatus::InvalidArgument);
    assert_eq!(error.message, "invalid CKB address: Invalid hrp: bc");
}

#[test]
fn funding_address_is_the_full_address_of_the_funding_lock() {
    let type_script = Script {
        code_hash: vec![7u8; 32],
        hash_type: ScriptHashType::Type,
        args: vec![9u8; 32],
    };
    let secret = vec![1u8; 32];
    let lock = funding_lock_from_type_script(&type_script, &secret).unwrap();
    let payload = ckb_sdk::AddressPayload::new_full(
        ckb_types::core::ScriptHashType::Type,
        ckb_types::packed::Byte32::from_slice(&lock.code_hash).unwrap(),
        lock.args.clone().into(),
    );
    let testnet = ckb_sdk::Address::new(ckb_sdk::NetworkType::Testnet, payload.clone(), true);
    let mainnet = ckb_sdk::Address::new(ckb_sdk::NetworkType::Mainnet, payload, true);

    assert_eq!(funding_address_of("testnet", &type_script, &secret).unwrap(), testnet.to_string());
    assert_eq!(funding_address_of("mainnet", &type_script, &secret).unwrap(), mainnet.to_string());
    assert!(funding_address_of("mainnet", &type_script, &secret).unwrap().starts_with("ckb1"));
    assert_eq!(lock_address(CkbNetwork::Dev, &lock), testnet.to_string());
    assert_eq!(lock_args_hex(&lock), format!("0x{}", hex::encode(&lock.args)));
    assert!(funding_address_of("testnet", &type_script, &vec![0u8; 32])
        .unwrap_err()
        .starts_with("failed to read the CKB funding key: "));

    let sighash = ckb_sdk::Address::new(
        ckb_sdk::NetworkType::Testnet,
        ckb_sdk::AddressPayload::from_pubkey_hash(ckb_types::H160([3u8; 20])),
        true,
    );
    let sighash_lock = Script {
        code_hash: hex::decode("9bd7e06f3ecf4be0f2fcd2188b23f1b9fcc88e5d4b65a8637b17723bbda3cce8")
            .unwrap(),
        hash_type: ScriptHashType::Type,
        args: vec![3u8; 20],
    };
    assert_eq!(lock_address(CkbNetwork::Testnet, &sighash_lock), sighash.to_string());
}
