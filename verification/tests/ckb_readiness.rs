use fiber_ffi::ckb_script::{ckb_address_network, CkbNetwork};
use fiber_ffi::readiness::{
    evaluate_ckb_readiness, evaluate_ckb_readiness_with_lag_tolerance, format_ckb_capacity,
    measured_wait_estimate, protocol_wait_estimate, wait_estimate, CkbReadiness, CkbSyncTiming,
    CkbWaitEstimate, RateUpdate, SyncStep, CKB_READINESS_MAX_TIP_AGE_MILLIS,
    CKB_SYNC_STALL_THRESHOLD_NANOS,
};
use fiber_ffi::wallet_history::{
    select_earliest_history_start_block, select_wallet_history_start_block,
    validate_wallet_birthday_metadata, WalletBirthdayMetadata, WalletHistoryDiscovery,
    CKB_WALLET_BIRTHDAY_VERSION,
};

#[test]
fn preparation_never_advances_any_known_history_height() {
    assert_eq!(
        select_earliest_history_start_block(Some(80), Some(70), Some(50), Some(60)),
        50
    );
    assert_eq!(
        select_earliest_history_start_block(None, Some(40), Some(90), None),
        40
    );
    assert_eq!(
        select_earliest_history_start_block(None, None, None, None),
        0
    );
}

#[test]
fn ckb_capacity_uses_eight_decimal_places() {
    assert_eq!(format_ckb_capacity(0), "0.00000000");
    assert_eq!(format_ckb_capacity(50_000_000_274), "500.00000274");
}

#[test]
fn ckb_address_network_uses_the_chain_prefix() {
    assert_eq!(ckb_address_network("mainnet"), CkbNetwork::Mainnet);
    assert_eq!(ckb_address_network("testnet"), CkbNetwork::Testnet);
    assert_eq!(ckb_address_network("ckb_preview"), CkbNetwork::Preview);
    assert_eq!(ckb_address_network("/tmp/custom-dev.toml"), CkbNetwork::Dev);
}

#[test]
fn readiness_rejects_indexer_lag_above_the_operational_limit() {
    let readiness = evaluate_ckb_readiness(120, 10_000, 110, 10_000);

    assert!(!readiness.ready);
    assert_eq!(readiness.tip_block_number, Some(120));
    assert_eq!(readiness.indexed_block_number, Some(110));
    assert_eq!(readiness.lag, Some(10));
    assert_eq!(
        readiness.reason.as_deref(),
        Some("CKB indexer is 10 block(s) behind the chain tip; maximum acceptable lag is 0")
    );
}

#[test]
fn readiness_rejects_one_block_script_index_drift() {
    let readiness = evaluate_ckb_readiness(120, 10_000, 119, 10_000);

    assert!(!readiness.ready);
    assert_eq!(readiness.lag, Some(1));
    assert_eq!(readiness.max_acceptable_lag, 0);
    assert_eq!(
        readiness.reason.as_deref(),
        Some("CKB indexer is 1 block(s) behind the chain tip; maximum acceptable lag is 0")
    );
}

#[test]
fn operational_snapshot_accepts_lag_within_its_explicit_limit() {
    let readiness = evaluate_ckb_readiness_with_lag_tolerance(120, 10_000, 114, 10_000, 6);

    assert!(readiness.ready);
    assert_eq!(readiness.lag, Some(6));
    assert_eq!(readiness.max_acceptable_lag, 6);
    assert_eq!(readiness.reason, None);
}

#[test]
fn readiness_accepts_a_current_fully_indexed_tip() {
    let readiness = evaluate_ckb_readiness(120, 10_000, 120, 10_000);

    assert!(readiness.ready);
    assert_eq!(readiness.lag, Some(0));
    assert!(readiness.wait_estimate.is_none());
    assert_eq!(readiness.reason, None);
}

#[test]
fn readiness_rejects_a_stale_chain_tip() {
    let now = CKB_READINESS_MAX_TIP_AGE_MILLIS + 20_000;
    let readiness = evaluate_ckb_readiness(120, 10_000, 120, now);

    assert!(!readiness.ready);
    assert_eq!(readiness.reason.as_deref(), Some("CKB chain tip is not current"));
    assert_eq!(readiness.mode, "light_client");
}

#[test]
fn a_tip_in_the_future_within_two_hours_is_current() {
    let readiness = evaluate_ckb_readiness(5, 10_000 + CKB_READINESS_MAX_TIP_AGE_MILLIS, 5, 10_000);
    assert!(readiness.ready);
    let genesis = evaluate_ckb_readiness(0, 10_000, 0, 10_000);
    assert!(!genesis.ready);
}

#[test]
fn an_unavailable_backend_is_not_ready() {
    let readiness = CkbReadiness::unavailable(Some(7), "CKB indexer tip is not available".to_string());
    assert!(!readiness.ready);
    assert_eq!(readiness.tip_block_number, Some(7));
    assert_eq!(readiness.lag, None);
    assert_eq!(readiness.reason.as_deref(), Some("CKB indexer tip is not available"));
}

#[test]
fn first_lag_estimate_is_protocol_based() {
    let estimate = protocol_wait_estimate(6, false);
    assert_eq!(estimate.lower_seconds, 3);
    assert_eq!(estimate.upper_seconds, 60);
    assert_eq!(estimate.retry_after_seconds, 3);
    assert_eq!(estimate.confidence, "low");

    let stalled = protocol_wait_estimate(6, true);
    assert_eq!(stalled.upper_seconds, 120);
    assert_eq!(stalled.confidence, "stalled");

    let long = protocol_wait_estimate(100_001, false);
    assert_eq!(long.lower_seconds, 303);
    assert_eq!(long.upper_seconds, 1_800);
}

#[test]
fn measured_estimate_brackets_the_expected_time() {
    let estimate = measured_wait_estimate(7);
    assert_eq!(estimate.lower_seconds, 3);
    assert_eq!(estimate.upper_seconds, 17);
    assert_eq!(estimate.confidence, "measured");
    let quick = measured_wait_estimate(1);
    assert_eq!(quick.lower_seconds, 1);
    assert_eq!(quick.upper_seconds, 5);
}

#[test]
fn wallet_history_selection_uses_earliest_cell() {
    let funded = WalletHistoryDiscovery {
        indexer_tip: 9_998,
        earliest_base_ckb_cell_block: Some(7_000),
    };
    assert_eq!(select_wallet_history_start_block(&funded, 1_000), 6_000);

    let empty = WalletHistoryDiscovery {
        indexer_tip: 9_998,
        earliest_base_ckb_cell_block: None,
    };
    assert_eq!(select_wallet_history_start_block(&empty, 1_000), 8_998);
}

/// Drives the library's sync timing the way the node does, smoothing the
/// measured speed in floating point between observations.
#[derive(Default)]
struct Estimator {
    timing: Option<CkbSyncTiming>,
    rate: Option<f64>,
}

impl Estimator {
    fn observe(&mut self, readiness: &CkbReadiness, seconds: u64) -> Option<CkbWaitEstimate> {
        let timing = self.timing.get_or_insert_with(CkbSyncTiming::new);
        let observation = timing.observe(readiness, seconds * 1_000_000_000);
        match observation.rate {
            RateUpdate::Keep => {}
            RateUpdate::Forget => self.rate = None,
            RateUpdate::Sample { blocks, elapsed_nanos } => {
                let sample = blocks as f64 / (elapsed_nanos as f64 / 1e9);
                self.rate = Some(self.rate.map(|r| r * 0.5 + sample * 0.5).unwrap_or(sample));
            }
        }
        match observation.step {
            SyncStep::NoEstimate => None,
            SyncStep::Estimate { lag, progress_is_recent, stalled } => {
                let expected = self
                    .rate
                    .filter(|r| *r > 0.0)
                    .map(|r| (lag as f64 / r).ceil() as u64);
                Some(wait_estimate(lag, progress_is_recent, stalled, expected))
            }
        }
    }
}

#[test]
fn first_lag_sample_returns_a_conservative_protocol_based_range() {
    let readiness = evaluate_ckb_readiness(120, 10_000, 114, 10_000);
    let mut estimator = Estimator::default();
    let estimate = estimator.observe(&readiness, 0).unwrap();

    assert_eq!(estimate.lower_seconds, 3);
    assert_eq!(estimate.upper_seconds, 60);
    assert_eq!(estimate.retry_after_seconds, 3);
    assert_eq!(estimate.confidence, "low");
}

#[test]
fn repeated_samples_use_observed_indexing_speed() {
    let mut estimator = Estimator::default();
    let first = evaluate_ckb_readiness(120, 10_000, 110, 10_000);
    let second = evaluate_ckb_readiness(120, 10_000, 113, 10_000);

    estimator.observe(&first, 0).unwrap();
    let estimate = estimator.observe(&second, 3).unwrap();

    assert_eq!(estimate.lower_seconds, 3);
    assert_eq!(estimate.upper_seconds, 17);
    assert_eq!(estimate.confidence, "measured");
}

#[test]
fn catch_up_to_zero_preserves_the_measured_rate_for_the_next_block() {
    let mut estimator = Estimator::default();
    let behind = evaluate_ckb_readiness(120, 10_000, 110, 10_000);
    let caught_up = evaluate_ckb_readiness(120, 10_000, 120, 10_000);
    let next_block = evaluate_ckb_readiness(121, 10_000, 120, 10_000);

    estimator.observe(&behind, 0).unwrap();
    assert!(estimator.observe(&caught_up, 10).is_none());
    let estimate = estimator.observe(&next_block, 13).unwrap();

    assert_eq!(estimate.confidence, "measured");
    assert_eq!(estimate.lower_seconds, 1);
    assert_eq!(estimate.upper_seconds, 5);
}

#[test]
fn normal_filter_batch_pause_keeps_the_measured_rate() {
    let mut estimator = Estimator::default();
    let first = evaluate_ckb_readiness(120, 10_000, 110, 10_000);
    let progressed = evaluate_ckb_readiness(120, 10_000, 115, 10_000);
    let waiting_for_batch = evaluate_ckb_readiness(121, 10_000, 115, 10_000);

    estimator.observe(&first, 0).unwrap();
    estimator.observe(&progressed, 5).unwrap();
    let estimate = estimator.observe(&waiting_for_batch, 45).unwrap();

    assert_eq!(estimate.confidence, "measured");
}

#[test]
fn unchanged_progress_is_reported_as_stalled_after_threshold() {
    let mut estimator = Estimator::default();
    let readiness = evaluate_ckb_readiness(120, 10_000, 114, 10_000);

    estimator.observe(&readiness, 0).unwrap();
    let estimate = estimator
        .observe(&readiness, CKB_SYNC_STALL_THRESHOLD_NANOS / 1_000_000_000 + 1)
        .unwrap();

    assert_eq!(estimate.upper_seconds, 120);
    assert_eq!(estimate.confidence, "stalled");
}

#[test]
fn a_stale_tip_or_a_height_going_backwards_forgets_the_measured_speed() {
    let mut timing = CkbSyncTiming::new();
    let first = evaluate_ckb_readiness(120, 10_000, 110, 10_000);
    let later = evaluate_ckb_readiness(120, 10_000, 113, 10_000);
    let backwards = evaluate_ckb_readiness(120, 10_000, 100, 10_000);
    let stale = evaluate_ckb_readiness(120, 0, 113, 10_000_000);

    assert_eq!(timing.observe(&first, 0).rate, RateUpdate::Keep);
    assert_eq!(
        timing.observe(&later, 3_000_000_000).rate,
        RateUpdate::Sample { blocks: 3, elapsed_nanos: 3_000_000_000 }
    );
    let reset = timing.observe(&backwards, 4_000_000_000);
    assert_eq!(reset.rate, RateUpdate::Forget);
    assert_eq!(timing.last_progress_at, None);
    assert_eq!(timing.lag_started_at, Some(4_000_000_000));
    let unavailable = timing.observe(&stale, 5_000_000_000);
    assert_eq!(unavailable.rate, RateUpdate::Forget);
    assert_eq!(unavailable.step, SyncStep::NoEstimate);
    assert_eq!(timing.last_sample, None);
}

#[test]
fn wallet_birthday_metadata_round_trips_and_rejects_another_wallet() {
    let metadata = WalletBirthdayMetadata {
        version: CKB_WALLET_BIRTHDAY_VERSION,
        network: "testnet".to_string(),
        genesis_hash: "0xgenesis".to_string(),
        address: "ckt1wallet".to_string(),
        lock_args: "0x1234".to_string(),
        history_start_block: 42,
        source: "external_discovery".to_string(),
    };
    let path = "/tmp/wallet-birthday.json";

    validate_wallet_birthday_metadata(&metadata, "testnet", "0xgenesis", "ckt1wallet", "0x1234", path)
        .unwrap();
    let error = validate_wallet_birthday_metadata(
        &metadata,
        "testnet",
        "0xgenesis",
        "ckt1another",
        "0x1234",
        path,
    )
    .unwrap_err();
    assert!(error.contains("different address"));
    assert_eq!(
        error,
        "wallet birthday /tmp/wallet-birthday.json belongs to a different address: expected ckt1another, found ckt1wallet"
    );
}
