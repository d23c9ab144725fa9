use fiber_ffi::ckb_script::{Script, ScriptHashType};
use fiber_ffi::light_client::pagination::{ExactPageCollector, PageStep};
use fiber_ffi::light_client::epoch::{
    epoch_view_from_header, resolve_epoch_view_for_fiber, ProvedHeader,
};
use fiber_ffi::light_client::reservations::{OutPoint, PendingInputReservations};
use fiber_ffi::light_client::rpc_rules::{
    find_recent_block_hash, map_send_transaction_error, search_mode, validate_limit,
    IndexedScriptType, RpcErrorCode, ScriptStatus, ScriptType, SearchMode,
    POOL_REJECTED_TRANSACTION_BY_MIN_FEE_RATE, TRANSACTION_FAILED_TO_RESOLVE,
    TRANSACTION_FAILED_TO_VERIFY,
};
use fiber_ffi::light_client::script_registry::{
    output_matches_registered_scripts, reconcile_required_scripts, required_scripts_marker,
    script_coverage_key, OutputScripts,
};

fn script(tag: u8) -> Script {
    Script {
        code_hash: vec![tag; 32],
        hash_type: ScriptHashType::Data,
        args: Vec::new(),
    }
}

fn status(script: Script, block_number: u64) -> ScriptStatus {
    ScriptStatus {
        script,
        script_type: ScriptType::Lock,
        block_number,
    }
}

fn same(a: &Script, b: &Script) -> bool {
    a.code_hash == b.code_hash && a.hash_type == b.hash_type && a.args == b.args
}

fn epoch(number: u64, index: u64, length: u64) -> u64 {
    (length << 40) | (index << 24) | number
}

fn header(number: u64, epoch_number: u64, epoch_index: u64, epoch_length: u64) -> ProvedHeader {
    ProvedHeader {
        number,
        epoch: epoch(epoch_number, epoch_index, epoch_length),
        compact_target: 0x1e08_3126,
    }
}

#[test]
fn recent_verified_headers_resolve_unmatched_block_numbers() {
    let expected = vec![2u8; 32];
    let headers = vec![
        (100, vec![1u8; 32]),
        (101, expected.clone()),
        (102, vec![3u8; 32]),
    ];

    assert_eq!(find_recent_block_hash(101, &headers), Some(expected));
    assert_eq!(find_recent_block_hash(99, &headers), None);
}

#[test]
fn required_script_reconciliation_keeps_persisted_progress() {
    let required = script(1);
    let requested = vec![(required.clone(), IndexedScriptType::Lock, 1_000)];
    let (reconciled, replace) =
        reconcile_required_scripts(vec![status(required, 2_000)], &requested, true);

    assert!(!replace);
    assert_eq!(reconciled.len(), 1);
    assert_eq!(reconciled[0].block_number, 2_000);
}

#[test]
fn matching_required_marker_preserves_controlled_discovered_scripts() {
    let required = script(1);
    let discovered = script(2);
    let requested = vec![(required.clone(), IndexedScriptType::Lock, 1_000)];
    let (reconciled, replace) = reconcile_required_scripts(
        vec![
            status(required.clone(), 2_000),
            status(discovered.clone(), 500),
        ],
        &requested,
        true,
    );

    assert!(!replace);
    assert_eq!(reconciled.len(), 2);
    assert!(reconciled.iter().any(|status| same(&status.script, &required)));
    assert!(reconciled.iter().any(|status| same(&status.script, &discovered)));
}

#[test]
fn mismatched_required_marker_discards_old_discovered_scripts() {
    let required = script(1);
    let stale = script(2);
    let requested = vec![(required.clone(), IndexedScriptType::Lock, 1_000)];
    let (reconciled, replace) = reconcile_required_scripts(
        vec![status(required.clone(), 2_000), status(stale, 500)],
        &requested,
        false,
    );

    assert!(replace);
    assert_eq!(reconciled.len(), 1);
    assert!(same(&reconciled[0].script, &required));
    assert_eq!(reconciled[0].block_number, 999);
}

#[test]
fn required_script_reconciliation_adds_missing_scripts_at_requested_start() {
    let required = script(1);
    let requested = vec![(required.clone(), IndexedScriptType::Lock, 1_000)];
    let (reconciled, replace) = reconcile_required_scripts(Vec::new(), &requested, false);

    assert!(replace);
    assert_eq!(reconciled.len(), 1);
    assert!(same(&reconciled[0].script, &required));
    assert_eq!(reconciled[0].block_number, 999);
}

#[test]
fn required_script_reconciliation_rescans_an_unmarked_cache() {
    let required = script(1);
    let requested = vec![(required.clone(), IndexedScriptType::Lock, 1_000)];
    let (reconciled, replace) =
        reconcile_required_scripts(vec![status(required, 2_000)], &requested, false);

    assert!(!replace);
    assert_eq!(reconciled[0].block_number, 999);
}

#[test]
fn reconciliation_with_kept_progress_adds_new_requirements_once() {
    let requested = vec![
        (script(1), IndexedScriptType::Lock, 1_000),
        (script(1), IndexedScriptType::Lock, 5),
        (script(1), IndexedScriptType::Type, 0),
    ];
    let (reconciled, replace) =
        reconcile_required_scripts(vec![status(script(1), 2_000)], &requested, true);
    assert!(replace);
    assert_eq!(reconciled.len(), 2);
    assert_eq!(reconciled[0].block_number, 2_000);
    assert_eq!(reconciled[1].script_type, ScriptType::Type);
    assert_eq!(reconciled[1].block_number, 0);
}

#[test]
fn tracked_output_match_accepts_registered_lock_or_type_only() {
    let lock = script(1);
    let type_ = script(2);
    let output = OutputScripts {
        lock: lock.clone(),
        type_: Some(type_.clone()),
    };

    assert!(output_matches_registered_scripts(
        &output,
        &vec![(lock.clone(), IndexedScriptType::Lock)]
    ));
    assert!(output_matches_registered_scripts(
        &output,
        &vec![(type_.clone(), IndexedScriptType::Type)]
    ));
    assert!(!output_matches_registered_scripts(&output, &Vec::new()));
    assert!(!output_matches_registered_scripts(
        &output,
        &vec![(lock, IndexedScriptType::Type)]
    ));
}

#[test]
fn epoch_query_returns_exact_view_from_a_proved_header() {
    let tip = header(105, 10, 5, 10);
    let proved = header(63, 6, 3, 10);

    let epoch = resolve_epoch_view_for_fiber(6, &tip, epoch(4, 0, 1), &vec![proved])
        .unwrap()
        .unwrap();

    assert_eq!(epoch.number, 6);
    assert_eq!(epoch.start_number, 60);
    assert_eq!(epoch.length, 10);
    assert_eq!(epoch.compact_target, 0x1e08_3126);
}

#[test]
fn maturity_epoch_without_a_header_uses_the_latest_proved_mature_block() {
    let tip = header(105, 10, 5, 10);
    let latest_proved_mature = header(59, 5, 9, 10);
    let proved_but_immature = header(70, 7, 0, 10);

    let epoch = resolve_epoch_view_for_fiber(
        6,
        &tip,
        epoch(4, 0, 1),
        &vec![latest_proved_mature, proved_but_immature],
    )
    .unwrap()
    .unwrap();

    assert_eq!(epoch.number, 6);
    assert_eq!(epoch.start_number, 59);
    assert_eq!(epoch.length, 1);
}

#[test]
fn epoch_query_does_not_invent_unrelated_history_or_future_epochs() {
    let tip = header(105, 10, 5, 10);
    let proved = header(59, 5, 9, 10);
    let maturity = epoch(4, 0, 1);

    assert_eq!(
        resolve_epoch_view_for_fiber(4, &tip, maturity, &vec![proved]).unwrap_err(),
        "epoch 4 is not represented by a proved local header"
    );
    assert_eq!(
        resolve_epoch_view_for_fiber(11, &tip, maturity, &vec![proved]).unwrap(),
        None
    );
    assert_eq!(
        resolve_epoch_view_for_fiber(6, &tip, maturity, &Vec::new()).unwrap_err(),
        "no proved local header can establish maturity for epoch 6"
    );
}

#[test]
fn header_epoch_starts_at_its_index_and_reads_zero_length_as_one_block() {
    let view = epoch_view_from_header(&header(63, 6, 3, 10));
    assert_eq!((view.number, view.start_number, view.length), (6, 60, 10));
    let view = epoch_view_from_header(&header(2, 1, 5, 0));
    assert_eq!((view.number, view.start_number, view.length), (1, 2, 1));
    let view = epoch_view_from_header(&header(2, 1, 5, 10));
    assert_eq!(view.start_number, 0);
}

#[test]
fn pending_input_reservations_are_idempotent_and_detect_conflicts() {
    let input = OutPoint {
        tx_hash: vec![1; 32],
        index: 0,
    };
    let first = vec![2u8; 32];
    let second = vec![3u8; 32];
    let mut reservations = PendingInputReservations::new();

    reservations.reserve(&vec![input.clone()], &first);
    assert!(reservations
        .conflicting_owner(&vec![input.clone()], &first)
        .is_none());
    assert_eq!(
        reservations
            .conflicting_owner(&vec![input.clone()], &second)
            .map(|(_, owner)| owner),
        Some(first.clone())
    );

    reservations.retain_pending(&vec![second.clone()]);
    assert!(reservations
        .conflicting_owner(&vec![input.clone()], &second)
        .is_none());
}

#[test]
fn light_client_verification_errors_use_ckb_rpc_codes() {
    let resolve =
        map_send_transaction_error("invalid transaction: OutPoint(Unknown(...))".to_string());
    assert_eq!(
        resolve.code,
        RpcErrorCode::ServerError(TRANSACTION_FAILED_TO_RESOLVE)
    );

    let low_fee = map_send_transaction_error("Transaction rejected by low fee rate".to_string());
    assert_eq!(
        low_fee.code,
        RpcErrorCode::ServerError(POOL_REJECTED_TRANSACTION_BY_MIN_FEE_RATE)
    );
    assert_eq!(
        low_fee.message,
        "PoolRejectedTransactionByMinFeeRate: Transaction rejected by low fee rate"
    );
    assert_eq!(
        low_fee.data.as_deref(),
        Some("Transaction rejected by low fee rate")
    );

    let verify =
        map_send_transaction_error("invalid transaction: Script(Error {...})".to_string());
    assert_eq!(
        verify.code,
        RpcErrorCode::ServerError(TRANSACTION_FAILED_TO_VERIFY)
    );
}

#[test]
fn query_limits_and_search_modes() {
    assert!(validate_limit(1).is_ok());
    assert!(validate_limit(1_000).is_ok());
    let error = validate_limit(0).unwrap_err();
    assert_eq!(error.code, RpcErrorCode::InvalidParams);
    assert_eq!(error.message, "limit must be between 1 and 1000");
    assert!(validate_limit(1_001).is_err());

    assert_eq!(search_mode(Some("exact")), SearchMode::Exact);
    assert_eq!(search_mode(Some("partial")), SearchMode::Partial);
    assert_eq!(search_mode(Some("other")), SearchMode::Prefix);
    assert_eq!(search_mode(None), SearchMode::Prefix);
}

#[test]
fn required_marker_ignores_order_and_repeats() {
    let a = (script(1), IndexedScriptType::Lock, 1_000);
    let b = (script(2), IndexedScriptType::Type, 7);
    let forward = required_scripts_marker(&vec![a.clone(), b.clone()]);
    let backward = required_scripts_marker(&vec![b.clone(), a.clone(), b.clone()]);
    assert_eq!(forward, backward);
    // two framed entries: 4 + (1 + 8 + 4 + 53) bytes each
    assert_eq!(forward.len(), 2 * (4 + 66));
    assert_eq!(&forward[0..4], &[0, 0, 0, 66]);
    assert_eq!(forward[4], 0);
    assert_eq!(&forward[5..13], &1_000u64.to_be_bytes());
    assert_ne!(forward, required_scripts_marker(&vec![a]));
}

#[test]
fn coverage_keys_hash_the_serialized_script() {
    let lock = script(1);
    let key = script_coverage_key(&lock, IndexedScriptType::Lock);
    let prefix = b"FIBER_FFI_SCRIPT_COVERAGE_V2";
    assert_eq!(&key[..prefix.len()], prefix);
    assert_eq!(key[prefix.len()], 0);
    assert_eq!(key.len(), prefix.len() + 1 + 32);
    let type_key = script_coverage_key(&lock, IndexedScriptType::Type);
    assert_eq!(type_key[prefix.len()], 1);
    assert_eq!(key[prefix.len() + 1..], type_key[prefix.len() + 1..]);
    assert_ne!(
        key[prefix.len() + 1..],
        script_coverage_key(&script(2), IndexedScriptType::Lock)[prefix.len() + 1..]
    );
}

#[test]
fn exact_pagination_continues_past_prefix_only_results() {
    let source = [1u8, 2, 3, 4];
    let mut requested_limits = Vec::new();
    let mut objects = Vec::new();
    let mut collector = ExactPageCollector::new(2, None);
    while let Some((limit, after)) = collector.next_request() {
        requested_limits.push(limit);
        let start = after
            .as_ref()
            .and_then(|cursor| cursor.first())
            .copied()
            .unwrap_or_default() as usize;
        let end = (start + limit as usize).min(source.len());
        let page = source[start..end].to_vec();
        let exact: Vec<u8> = page.iter().copied().filter(|value| value % 2 == 0).collect();
        let step = collector
            .accept_page(page.is_empty(), vec![end as u8], exact.len() as u32)
            .unwrap();
        objects.extend(exact);
        if step == PageStep::Finished {
            break;
        }
    }

    assert_eq!(objects, vec![2, 4]);
    assert_eq!(collector.last_cursor(), vec![4]);
    assert_eq!(requested_limits, vec![2, 1, 1]);
}

#[test]
fn exact_pagination_refuses_a_cursor_that_does_not_move() {
    let mut collector = ExactPageCollector::new(2, Some(vec![3]));
    let error = collector.accept_page(false, vec![3], 0).unwrap_err();
    assert_eq!(error.code, RpcErrorCode::InternalError);
    assert_eq!(
        error.message,
        "Light Client prefix pagination cursor did not advance"
    );
}
