use fiber_ffi::ffi_types::FiberFfiStatus;
use fiber_ffi::prepare_state::{CkbPreparationKey, CkbPreparationState, PreparationAdmission};
use fiber_ffi::readiness::{format_ckb_capacity, readiness_gate};
use fiber_ffi::wallet_history::{
    check_discovery_tips, discovery_limits, finish_wallet_history_discovery, resolve_wallet_birthday_height,
    wallet_birthday_metadata, WalletHistoryDiscovery, CKB_WALLET_BIRTHDAY_VERSION,
};

fn key(path: &str, history_start_block: u64) -> CkbPreparationKey {
    CkbPreparationKey {
        config_path: path.to_string(),
        database_prefix: Some("db".to_string()),
        config_contents_hash: "0xaa".to_string(),
        funding_pubkey_hash: "0xbb".to_string(),
        history_start_block,
    }
}

#[test]
fn a_prepared_backend_is_handed_to_exactly_one_fiber_start() {
    let mut state = CkbPreparationState::Idle;
    assert_eq!(state.admission(&key("a", 5)).unwrap(), PreparationAdmission::Start);
    state.start_preparing(1, key("a", 5));

    let refused = state.admission(&key("a", 5)).unwrap_err();
    assert_eq!(refused.status, FiberFfiStatus::InvalidArgument);
    assert_eq!(refused.message, "CKB preparation is already in progress");
    let other = state.admission(&key("b", 5)).unwrap_err();
    assert_eq!(
        other.message,
        "CKB preparation is already in progress for a different configuration"
    );
    let early = state.take_prepared(key("a", 5)).unwrap_err();
    assert_eq!(early.status, FiberFfiStatus::StartupFailed);

    assert!(state.mark_ready(1, key("a", 3)));
    assert_eq!(state.admission(&key("a", 3)).unwrap(), PreparationAdmission::AlreadyReady);
    let mismatch = state.take_prepared(key("a", 5)).unwrap_err();
    assert_eq!(
        mismatch.message,
        "CKB was prepared with a different configuration, config_path, database_prefix, or funding key"
    );

    let worker = state.take_prepared(key("a", 3)).unwrap().unwrap();
    assert_eq!(worker.id, 1);
    let second = state.take_prepared(key("a", 3)).unwrap_err();
    assert_eq!(second.message, "prepared CKB is already in use by Fiber");
    assert_eq!(
        state.admission(&key("b", 3)).unwrap_err().message,
        "CKB is already in use by Fiber with a different configuration"
    );

    state.clear_in_use(&key("b", 3));
    assert!(matches!(state, CkbPreparationState::InUse(_)));
    state.clear_in_use(&key("a", 3));
    assert!(matches!(state, CkbPreparationState::Idle));
    assert!(state.take_prepared(key("a", 3)).unwrap().is_none());
}

#[test]
fn a_stale_preparation_run_changes_nothing() {
    let mut state = CkbPreparationState::Idle;
    state.start_preparing(2, key("a", 0));
    assert!(!state.mark_ready(1, key("a", 0)));
    assert!(matches!(&state, CkbPreparationState::Preparing(w) if w.id == 2));
    state.clear_preparation(1);
    assert!(matches!(&state, CkbPreparationState::Preparing(w) if w.id == 2));
    state.clear_preparation(2);
    assert!(matches!(state, CkbPreparationState::Idle));
}

#[test]
fn discovery_tips_must_come_from_a_current_indexer() {
    assert_eq!(
        check_discovery_tips(100, None, 10).unwrap_err(),
        "wallet history discovery RPC has no CKB Indexer enabled"
    );
    assert_eq!(
        check_discovery_tips(100, Some(101), 10).unwrap_err(),
        "wallet history discovery Indexer tip 101 is above its node tip 100"
    );
    assert_eq!(
        check_discovery_tips(100, Some(80), 10).unwrap_err(),
        "wallet history discovery Indexer is 20 blocks behind its node; maximum acceptable lag is 10"
    );
    assert_eq!(check_discovery_tips(100, Some(90), 10).unwrap(), 90);
}

#[test]
fn discovered_cells_cannot_lie_above_the_indexer_tip() {
    assert_eq!(
        finish_wallet_history_discovery(50, Some(51)).unwrap_err(),
        "wallet history discovery Indexer returned a Cell above its own tip"
    );
    assert_eq!(
        finish_wallet_history_discovery(50, Some(50)).unwrap(),
        WalletHistoryDiscovery { indexer_tip: 50, earliest_base_ckb_cell_block: Some(50) }
    );
    assert_eq!(
        finish_wallet_history_discovery(50, None).unwrap(),
        WalletHistoryDiscovery { indexer_tip: 50, earliest_base_ckb_cell_block: None }
    );
}

#[test]
fn wallet_birthday_resolution_names_the_earliest_source() {
    let genesis = resolve_wallet_birthday_height(None, None, None, None);
    assert_eq!(genesis.history_start_block, 0);
    assert_eq!(genesis.source, "default_genesis");
    assert!(!genesis.persist);

    let persisted = resolve_wallet_birthday_height(Some(90), Some(40), Some(60), None);
    assert_eq!(persisted.history_start_block, 40);
    assert_eq!(persisted.source, "persisted");
    assert!(!persisted.persist);

    let legacy = resolve_wallet_birthday_height(None, Some(40), None, Some(30));
    assert_eq!(legacy.history_start_block, 30);
    assert_eq!(legacy.source, "legacy_floor");
    assert!(legacy.persist);

    let discovered = resolve_wallet_birthday_height(Some(90), None, Some(30), Some(30));
    assert_eq!(discovered.source, "external_discovery");
    let configured = resolve_wallet_birthday_height(Some(20), Some(40), Some(30), None);
    assert_eq!(configured.history_start_block, 20);
    assert_eq!(configured.source, "configured");
    assert!(configured.persist);

    let record = wallet_birthday_metadata(
        "testnet".to_string(),
        "0x10".to_string(),
        "ckt1q".to_string(),
        "0x11".to_string(),
        &configured,
    );
    assert_eq!(record.version, CKB_WALLET_BIRTHDAY_VERSION);
    assert_eq!(record.history_start_block, 20);
    assert_eq!(record.source, "configured");
    assert_eq!(record.network, "testnet");
}

#[test]
fn discovery_limits_default_what_is_absent_and_reject_bad_flags() {
    assert_eq!(discovery_limits(0, 7, 0, 9).unwrap(), (1_000, 100));
    assert_eq!(discovery_limits(1, 7, 1, 9).unwrap(), (7, 9));
    assert_eq!(discovery_limits(1, 7, 0, 9).unwrap(), (7, 100));
    let error = discovery_limits(2, 7, 3, 9).unwrap_err();
    assert_eq!(error.status, FiberFfiStatus::InvalidArgument);
    assert_eq!(error.message, "has_safety_blocks must be 0 or 1");
    let error = discovery_limits(0, 7, 3, 9).unwrap_err();
    assert_eq!(error.message, "has_max_indexer_lag must be 0 or 1");
}

#[test]
fn calls_needing_ckb_are_refused_while_it_is_not_ready() {
    assert!(readiness_gate(true, "{}").is_ok());
    let error = readiness_gate(false, "{\"ready\":false}").unwrap_err();
    assert_eq!(error.status, FiberFfiStatus::NotReady);
    assert_eq!(error.message, "CKB backend is not ready: {\"ready\":false}");
}

#[test]
fn capacity_text_reads_back_as_the_same_amount() {
    for shannons in [0u64, 1, 99_999_999, 100_000_000, 50_000_000_274, u64::MAX] {
        let text = format_ckb_capacity(shannons);
        let (whole, fraction) = text.split_once('.').unwrap();
        assert_eq!(fraction.len(), 8);
        let read = whole.parse::<u64>().unwrap() as u128 * 100_000_000 + fraction.parse::<u128>().unwrap();
        assert_eq!(read, shannons as u128);
    }
}
