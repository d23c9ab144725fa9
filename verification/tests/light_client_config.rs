use fiber_ffi::light_client::config::{
    mainnet_bootnodes, parse_hex_block_number, testnet_bootnodes, HistoryStartBlockEnv,
    LocalChain, LocalLightClientConfig, SerializedLightClientConfig, SupportedProtocol,
    DEFAULT_FILTER_PEER_COOLDOWN_SECONDS, DEFAULT_FILTER_PEER_FAILURE_THRESHOLD,
    DEFAULT_FILTER_PREFERRED_PEER_CHANCE_PERCENT, DEFAULT_FILTER_REQUEST_TIMEOUT_SECONDS,
    DEFAULT_REQUIRED_READY_PEERS, HEADER_READY_TIMEOUT_SECONDS, LOCAL_RPC_LISTEN_ADDRESS,
    MAX_OUTBOUND_PEERS, REMOTE_DATA_TIMEOUT_SECONDS,
};

fn build(
    base: &str,
    chain: &str,
    serialized: SerializedLightClientConfig,
) -> Result<LocalLightClientConfig, String> {
    LocalLightClientConfig::build(
        base,
        chain,
        serialized,
        HistoryStartBlockEnv::NotPresent,
        Ok(None),
    )
}

fn empty() -> SerializedLightClientConfig {
    SerializedLightClientConfig::default()
}

fn first_mainnet_bootnode() -> String {
    mainnet_bootnodes()[0].clone()
}

#[test]
fn mainnet_uses_fixed_defaults() {
    let config = build("/tmp/fiber", "mainnet", empty()).unwrap();

    assert_eq!(config.chain, LocalChain::Mainnet);
    assert_eq!(config.store_path, "/tmp/fiber/ckb-light-client/store");
    assert_eq!(config.network_path, "/tmp/fiber/ckb-light-client/network");
    assert_eq!(config.history_start_block, 0);
    assert!(!config.history_start_block_is_explicit);
    assert_eq!(config.wallet_birthday_path, "/tmp/fiber/ckb/wallet-birthday.json");
    assert!(!config.trust_pinned_cell_deps);
    assert!(config.peer_funding_liveness_rpc_url.is_none());
    assert_eq!(config.startup_min_peers, DEFAULT_REQUIRED_READY_PEERS);
    assert_eq!(config.startup_script_lag_tolerance, 0);
    assert_eq!(config.operational_lag_tolerance, 0);
    assert_eq!(config.bootnodes.len(), mainnet_bootnodes().len());
    assert!(config.preferred_peers.is_empty());
    assert_eq!(
        config.filter_preferred_peer_chance_percent,
        DEFAULT_FILTER_PREFERRED_PEER_CHANCE_PERCENT
    );
    assert_eq!(
        config.filter_request_timeout_seconds,
        DEFAULT_FILTER_REQUEST_TIMEOUT_SECONDS
    );
    assert_eq!(
        config.filter_peer_failure_threshold,
        DEFAULT_FILTER_PEER_FAILURE_THRESHOLD
    );
    assert_eq!(
        config.filter_peer_cooldown_seconds,
        DEFAULT_FILTER_PEER_COOLDOWN_SECONDS
    );
    assert_eq!(
        LocalLightClientConfig::local_rpc_listen_address(),
        LOCAL_RPC_LISTEN_ADDRESS
    );
    assert_eq!(MAX_OUTBOUND_PEERS, 8);
    assert_eq!(DEFAULT_REQUIRED_READY_PEERS, 4);
    assert!(REMOTE_DATA_TIMEOUT_SECONDS < 10);
    assert_eq!(HEADER_READY_TIMEOUT_SECONDS, 120);
}

#[test]
fn parses_history_start_block() {
    let mut serialized = empty();
    serialized.history_start_block = Some("0x2a".to_string());
    let config = build("data", "testnet", serialized).unwrap();

    assert_eq!(config.history_start_block, 42);
    assert!(config.history_start_block_is_explicit);
}

#[test]
fn persisted_wallet_birthday_is_reused_but_an_explicit_height_wins() {
    let persisted = LocalLightClientConfig::build(
        "/tmp/fiber",
        "testnet",
        empty(),
        HistoryStartBlockEnv::NotPresent,
        Ok(Some(4_242)),
    )
    .unwrap();
    assert_eq!(persisted.history_start_block, 4_242);
    assert!(!persisted.history_start_block_is_explicit);

    let mut serialized = empty();
    serialized.history_start_block = Some("0x2a".to_string());
    let explicit = LocalLightClientConfig::build(
        "/tmp/fiber",
        "testnet",
        serialized,
        HistoryStartBlockEnv::NotPresent,
        Ok(Some(4_242)),
    )
    .unwrap();
    assert_eq!(explicit.history_start_block, 42);
    assert!(explicit.history_start_block_is_explicit);
}

#[test]
fn pinned_cell_dep_trust_requires_explicit_opt_in() {
    let mut serialized = empty();
    serialized.trust_pinned_cell_deps = Some(true);
    let config = build("data", "testnet", serialized).unwrap();

    assert!(config.trust_pinned_cell_deps);
}

#[test]
fn peer_funding_liveness_rpc_requires_an_explicit_http_url() {
    let mut serialized = empty();
    serialized.peer_funding_liveness_rpc_url = Some(" https://testnet.ckbapp.dev/ ".to_string());
    let config = build("data", "testnet", serialized).unwrap();
    assert_eq!(
        config.peer_funding_liveness_rpc_url.as_deref(),
        Some("https://testnet.ckbapp.dev/")
    );

    for value in ["", "127.0.0.1:8114", "ftp://example.com"] {
        let mut serialized = empty();
        serialized.peer_funding_liveness_rpc_url = Some(value.to_string());
        let error = build("data", "testnet", serialized).unwrap_err();
        assert!(error.contains("peer_funding_liveness_rpc_url"));
    }
}

#[test]
fn startup_script_lag_tolerance_requires_explicit_opt_in() {
    let mut serialized = empty();
    serialized.startup_script_lag_tolerance = Some(12);
    let config = build("data", "testnet", serialized).unwrap();

    assert_eq!(config.startup_script_lag_tolerance, 12);
}

#[test]
fn operational_lag_tolerance_requires_explicit_opt_in() {
    let mut serialized = empty();
    serialized.operational_lag_tolerance = Some(6);
    let config = build("data", "testnet", serialized).unwrap();

    assert_eq!(config.operational_lag_tolerance, 6);
}

#[test]
fn filter_peer_selection_is_configurable_and_bounded() {
    let mut serialized = empty();
    serialized.filter_preferred_peer_chance_percent = Some(80);
    serialized.filter_request_timeout_seconds = Some(5);
    serialized.filter_peer_failure_threshold = Some(3);
    serialized.filter_peer_cooldown_seconds = Some(90);
    let config = build("data", "testnet", serialized).unwrap();
    assert_eq!(config.filter_preferred_peer_chance_percent, 80);
    assert_eq!(config.filter_request_timeout_seconds, 5);
    assert_eq!(config.filter_peer_failure_threshold, 3);
    assert_eq!(config.filter_peer_cooldown_seconds, 90);

    let mut chance = empty();
    chance.filter_preferred_peer_chance_percent = Some(101);
    let mut timeout = empty();
    timeout.filter_request_timeout_seconds = Some(0);
    let mut threshold = empty();
    threshold.filter_peer_failure_threshold = Some(0);
    let mut cooldown = empty();
    cooldown.filter_peer_cooldown_seconds = Some(3601);
    for serialized in [chance, timeout, threshold, cooldown] {
        assert!(build("data", "testnet", serialized).is_err());
    }
}

#[test]
fn startup_min_peers_is_bounded_by_outbound_capacity() {
    let mut serialized = empty();
    serialized.startup_min_peers = Some(2);
    let config = build("data", "testnet", serialized).unwrap();
    assert_eq!(config.startup_min_peers, 2);

    for value in [0, MAX_OUTBOUND_PEERS as usize + 1] {
        let mut serialized = empty();
        serialized.startup_min_peers = Some(value);
        let error = build("data", "testnet", serialized).unwrap_err();
        assert!(error.contains("startup_min_peers"));
    }
}

#[test]
fn preferred_peers_are_kept_separate_from_discovery_bootnodes() {
    let preferred = first_mainnet_bootnode();
    let mut serialized = empty();
    serialized.preferred_peers = Some(vec![preferred.clone()]);
    let config = build("data", "testnet", serialized).unwrap();

    assert_eq!(config.preferred_peers, vec![preferred]);
    assert_eq!(config.network_config().unwrap().whitelist_peers.len(), 1);
    assert_eq!(config.bootnodes.len(), testnet_bootnodes().len());
}

#[test]
fn preferred_peers_require_unique_peer_addresses() {
    let preferred = first_mainnet_bootnode();
    for peers in [
        vec!["/ip4/127.0.0.1/tcp/8114".to_string()],
        vec![preferred.clone(), preferred.clone()],
    ] {
        let mut serialized = empty();
        serialized.preferred_peers = Some(peers);
        let error = build("data", "testnet", serialized).unwrap_err();
        assert!(error.contains("preferred peer") || error.contains("preferred_peers"));
    }
}

#[test]
fn custom_chain_requires_bootnodes_and_resolves_chain_path() {
    let error = build("/tmp/fiber", "specs/dev.toml", empty()).unwrap_err();
    assert!(error.contains("must be set"));

    let mut serialized = empty();
    serialized.bootnodes = Some(vec![first_mainnet_bootnode()]);
    let config = build("/tmp/fiber", "specs/dev.toml", serialized).unwrap();
    assert_eq!(
        config.chain,
        LocalChain::Custom("/tmp/fiber/specs/dev.toml".to_string())
    );
}

#[test]
fn rejects_unsafe_or_unsupported_yaml_fields() {
    let mut serialized = empty();
    serialized.bootnodes = Some(vec!["/ip4/127.0.0.1/tcp/8114".to_string()]);
    let error = build("data", "mainnet", serialized).unwrap_err();
    assert!(error.contains("cannot override"));
}

#[test]
fn rejects_invalid_history_start_block() {
    for value in ["42", "0x", "0xnope"] {
        let mut serialized = empty();
        serialized.history_start_block = Some(value.to_string());
        let error = build("data", "mainnet", serialized).unwrap_err();
        assert!(error.contains("history_start_block"));
    }
}

#[test]
fn history_start_block_messages_follow_the_failing_step() {
    assert_eq!(
        parse_hex_block_number("42").unwrap_err(),
        "ckb_light_client.history_start_block must be a 0x-prefixed hexadecimal number"
    );
    assert_eq!(
        parse_hex_block_number("0x").unwrap_err(),
        "ckb_light_client.history_start_block must contain hexadecimal digits"
    );
    assert_eq!(
        parse_hex_block_number("0xnope").unwrap_err(),
        "invalid ckb_light_client.history_start_block \"0xnope\": invalid digit found in string"
    );
    assert_eq!(
        parse_hex_block_number("0x10000000000000000").unwrap_err(),
        "invalid ckb_light_client.history_start_block \"0x10000000000000000\": number too large to fit in target type"
    );
    assert_eq!(parse_hex_block_number("0xFFFFFFFFFFFFFFFF"), Ok(u64::MAX));
}

#[test]
fn environment_override_wins_and_must_be_unicode() {
    let mut serialized = empty();
    serialized.history_start_block = Some("0x2a".to_string());
    let config = LocalLightClientConfig::build(
        "data",
        "testnet",
        serialized.clone(),
        HistoryStartBlockEnv::Present("0x10".to_string()),
        Ok(None),
    )
    .unwrap();
    assert_eq!(config.history_start_block, 16);
    assert!(config.history_start_block_is_explicit);

    let error = LocalLightClientConfig::build(
        "data",
        "testnet",
        serialized,
        HistoryStartBlockEnv::NotUnicode,
        Ok(None),
    )
    .unwrap_err();
    assert_eq!(error, "FIBER_FFI_CKB_HISTORY_START_BLOCK must contain valid UTF-8");
}

#[test]
fn persisted_birthday_errors_matter_only_without_a_configured_height() {
    let error = LocalLightClientConfig::build(
        "data",
        "testnet",
        empty(),
        HistoryStartBlockEnv::NotPresent,
        Err("failed to parse wallet birthday".to_string()),
    )
    .unwrap_err();
    assert_eq!(error, "failed to parse wallet birthday");

    let mut serialized = empty();
    serialized.history_start_block = Some("0x1".to_string());
    let config = LocalLightClientConfig::build(
        "data",
        "testnet",
        serialized,
        HistoryStartBlockEnv::NotPresent,
        Err("failed to parse wallet birthday".to_string()),
    )
    .unwrap();
    assert_eq!(config.history_start_block, 1);
}

#[test]
fn custom_bootnodes_and_preferred_peers_report_exact_errors() {
    let mut serialized = empty();
    serialized.bootnodes = Some(Vec::new());
    assert_eq!(
        build("/tmp/fiber", "dev.toml", serialized).unwrap_err(),
        "ckb_light_client.bootnodes must contain at least one address for a custom fiber.chain"
    );

    let mut serialized = empty();
    serialized.bootnodes = Some(vec!["  ".to_string()]);
    assert_eq!(
        build("/tmp/fiber", "dev.toml", serialized).unwrap_err(),
        "ckb_light_client.bootnodes cannot contain an empty address"
    );

    let mut serialized = empty();
    serialized.bootnodes = Some(vec!["not-a-multiaddr".to_string()]);
    assert!(build("/tmp/fiber", "dev.toml", serialized)
        .unwrap_err()
        .starts_with("invalid CKB Light Client bootnode address \"not-a-multiaddr\": "));

    let mut serialized = empty();
    serialized.preferred_peers = Some(vec!["/ip4/127.0.0.1/tcp/8114".to_string()]);
    assert_eq!(
        build("data", "testnet", serialized).unwrap_err(),
        "CKB Light Client preferred peer address \"/ip4/127.0.0.1/tcp/8114\" must include /p2p/<peer-id>"
    );

    let preferred = first_mainnet_bootnode();
    let mut serialized = empty();
    serialized.preferred_peers = Some(vec![preferred.clone(), preferred.clone()]);
    assert_eq!(
        build("data", "testnet", serialized).unwrap_err(),
        format!("ckb_light_client.preferred_peers contains duplicate address {preferred:?}")
    );

    let mut serialized = empty();
    serialized.preferred_peers = Some(mainnet_bootnodes());
    assert_eq!(
        build("data", "testnet", serialized).unwrap_err(),
        "ckb_light_client.preferred_peers cannot contain more than 8 addresses"
    );
}

#[test]
fn network_settings_keep_discovery_open() {
    let config = build("/tmp/fiber", "testnet", empty()).unwrap();
    let network = config.network_config().unwrap();
    assert_eq!(network.path, "/tmp/fiber/ckb-light-client/network");
    assert_eq!(network.bootnodes, testnet_bootnodes());
    assert!(!network.whitelist_only);
    assert_eq!(network.max_peers, 8);
    assert_eq!(network.max_outbound_peers, 8);
    assert_eq!(network.ping_interval_secs, 120);
    assert_eq!(network.ping_timeout_secs, 1_200);
    assert_eq!(network.connect_outbound_interval_secs, 15);
    assert_eq!(network.support_protocols.len(), 5);
    assert_eq!(network.support_protocols[0], SupportedProtocol::Identify);
    assert_eq!(config.chain_label(), "testnet");
}
