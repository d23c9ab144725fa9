use ckb_types::prelude::{Builder, Entity, Pack};
use fiber_ffi::balance::{ckb_balance, BalanceTally, CKB_BALANCE_PAGE_SIZE};
use fiber_ffi::ckb_script::{Script, ScriptHashType};
use fiber_ffi::ffi_params::{CText, ParamObject, ParamValue};
use fiber_ffi::light_client::runtime_rules::{
    failure_report, progress_report, ready_report, CkbPrepareStatus,
};
use fiber_ffi::ffi_types::FiberFfiStatus;
use fiber_ffi::funding_identity::{connect_peer_options, funding_lock_from_type_script};
use fiber_ffi::light_client::epoch::maturity_is_readable;
use fiber_ffi::light_client::gateway::{
    all_scripts_scanned, cell_matches_script, check_outputs_validator, check_verbosity,
    coverage_updates, first_duplicate_input, index_covers_creation, liveness_route,
    median_timestamp, new_output_subscriptions, report_status, resolve_step,
    script_registered, script_scanned_to, transaction_encoding, LivenessRoute, ResolveStep,
    TxEncoding, TxStatus,
};
use fiber_ffi::light_client::reservations::{OutPoint, PendingInputReservations};
use fiber_ffi::light_client::rpc_rules::{
    IndexedScriptType, RpcErrorCode, ScriptStatus, ScriptType, NOT_READY_ERROR, UNSUPPORTED_ERROR,
};
use fiber_ffi::light_client::script_registry::OutputScripts;
use fiber_ffi::native::{chain_hash_admission, ConnectPeerOptions, TransportType};
use fiber_ffi::readiness::evaluate_ckb_readiness;

fn script(tag: u8) -> Script {
    Script { code_hash: vec![tag; 32], hash_type: ScriptHashType::Type, args: vec![tag] }
}

fn status(tag: u8, script_type: ScriptType, block_number: u64) -> ScriptStatus {
    ScriptStatus { script: script(tag), script_type, block_number }
}

fn out_point(tag: u8, index: u32) -> OutPoint {
    OutPoint { tx_hash: vec![tag; 32], index }
}

#[test]
fn median_block_time_is_the_middle_of_the_sorted_times() {
    assert_eq!(median_timestamp(&vec![5]), 5);
    assert_eq!(median_timestamp(&vec![30, 10, 20]), 20);
    assert_eq!(median_timestamp(&vec![40, 10, 30, 20]), 30);
    assert_eq!(median_timestamp(&vec![7, 7, 1, 9, 7]), 7);
}

#[test]
fn duplicated_inputs_are_found_at_their_second_use() {
    let inputs = vec![out_point(1, 0), out_point(2, 0), out_point(1, 1), out_point(2, 0)];
    assert_eq!(first_duplicate_input(&inputs), Some(3));
    assert_eq!(first_duplicate_input(&inputs[..3].to_vec()), None);
    assert_eq!(first_duplicate_input(&Vec::new()), None);
}

#[test]
fn outputs_validator_must_be_passthrough() {
    assert!(check_outputs_validator(None).is_ok());
    assert!(check_outputs_validator(Some("passthrough")).is_ok());
    let error = check_outputs_validator(Some("well_known_scripts_only")).unwrap_err();
    assert_eq!(error.code, RpcErrorCode::ServerError(UNSUPPORTED_ERROR));
    assert_eq!(
        error.message,
        "outputs_validator \"well_known_scripts_only\" is not supported by the embedded Light Client"
    );
}

#[test]
fn verbosity_and_transaction_encoding() {
    assert!(check_verbosity(2).is_ok());
    assert_eq!(check_verbosity(3).unwrap_err().message, "verbosity must be 0, 1, or 2");
    assert_eq!(transaction_encoding(0, true), TxEncoding::Bytes);
    assert_eq!(transaction_encoding(1, true), TxEncoding::Null);
    assert_eq!(transaction_encoding(2, true), TxEncoding::Json);
    assert_eq!(transaction_encoding(2, false), TxEncoding::Null);
}

#[test]
fn only_committed_queries_hide_other_transactions() {
    assert_eq!(report_status(TxStatus::Pending, false), ("pending", true));
    assert_eq!(report_status(TxStatus::Pending, true), ("unknown", false));
    assert_eq!(report_status(TxStatus::Committed, true), ("committed", true));
    assert_eq!(report_status(TxStatus::Unknown, false), ("unknown", true));
}

#[test]
fn out_points_resolve_by_producer_status() {
    assert_eq!(resolve_step(TxStatus::Pending, true), ResolveStep::Use);
    assert_eq!(resolve_step(TxStatus::Committed, true), ResolveStep::ProveLive);
    assert_eq!(resolve_step(TxStatus::Committed, false), ResolveStep::UsePinned);
    assert_eq!(resolve_step(TxStatus::Unknown, false), ResolveStep::Refuse);
}

#[test]
fn liveness_is_proved_by_the_lock_first() {
    assert_eq!(liveness_route(true, true, true, true), LivenessRoute::ByLock);
    assert_eq!(liveness_route(false, true, false, false), LivenessRoute::ByType);
    assert_eq!(liveness_route(false, false, true, true), LivenessRoute::ByPeerFundingRpc);
    assert_eq!(liveness_route(false, false, false, true), LivenessRoute::Unprovable);
    assert_eq!(liveness_route(false, false, true, false), LivenessRoute::Unprovable);
}

#[test]
fn index_coverage_uses_the_recorded_start_then_the_scan() {
    assert_eq!(index_covers_creation(Some(10), None, 12), (true, None));
    assert_eq!(index_covers_creation(Some(13), None, 12), (false, None));
    assert_eq!(index_covers_creation(Some(13), Some(5), 12), (true, Some(6)));
    assert_eq!(index_covers_creation(None, Some(0), 12), (true, Some(0)));
    assert_eq!(index_covers_creation(None, Some(12), 12), (false, None));
}

#[test]
fn subscriptions_are_found_by_script_and_field() {
    let statuses = vec![status(1, ScriptType::Lock, 50), status(2, ScriptType::Type, 20)];
    assert!(script_registered(&statuses, &script(1), ScriptType::Lock));
    assert!(!script_registered(&statuses, &script(1), ScriptType::Type));
    assert!(script_scanned_to(&statuses, &script(2), ScriptType::Type, 20));
    assert!(!script_scanned_to(&statuses, &script(2), ScriptType::Type, 21));
    assert_eq!(all_scripts_scanned(&statuses, 20).unwrap(), None);
    assert_eq!(all_scripts_scanned(&statuses, 30).unwrap(), Some(20));
    let error = all_scripts_scanned(&Vec::new(), 0).unwrap_err();
    assert_eq!(error.code, RpcErrorCode::ServerError(NOT_READY_ERROR));
    assert_eq!(error.message, "prefix queries require previously registered complete scripts");
}

#[test]
fn exact_matches_compare_the_searched_field() {
    let lock = script(1);
    let type_ = Some(script(2));
    assert!(cell_matches_script(&lock, &type_, &script(1), ScriptType::Lock));
    assert!(cell_matches_script(&lock, &type_, &script(2), ScriptType::Type));
    assert!(!cell_matches_script(&lock, &None, &script(2), ScriptType::Type));
    assert!(!cell_matches_script(&lock, &type_, &script(2), ScriptType::Lock));
}

#[test]
fn transaction_outputs_add_each_unsubscribed_script_once() {
    let existing = vec![status(1, ScriptType::Lock, 7)];
    let outputs = vec![
        OutputScripts { lock: script(1), type_: Some(script(3)) },
        OutputScripts { lock: script(2), type_: None },
        OutputScripts { lock: script(2), type_: Some(script(3)) },
    ];
    let added = new_output_subscriptions(&existing, &outputs, 90);
    let keys: Vec<(u8, IndexedScriptType, u64)> =
        added.iter().map(|(s, t, b)| (s.args[0], *t, *b)).collect();
    assert_eq!(
        keys,
        vec![(3, IndexedScriptType::Type, 90), (2, IndexedScriptType::Lock, 90)]
    );
}

#[test]
fn coverage_updates_keep_the_lowest_new_start() {
    let known = vec![(script(1), IndexedScriptType::Lock, 100), (script(2), IndexedScriptType::Lock, 5)];
    let requested = vec![
        (script(1), IndexedScriptType::Lock, 150),
        (script(1), IndexedScriptType::Lock, 80),
        (script(2), IndexedScriptType::Lock, 9),
        (script(3), IndexedScriptType::Type, 40),
        (script(3), IndexedScriptType::Type, 60),
    ];
    let mut updates: Vec<(u8, IndexedScriptType, u64)> =
        coverage_updates(&known, &requested).iter().map(|(s, t, b)| (s.args[0], *t, *b)).collect();
    updates.sort_by_key(|entry| entry.0);
    assert_eq!(
        updates,
        vec![(1, IndexedScriptType::Lock, 80), (3, IndexedScriptType::Type, 40)]
    );
}

#[test]
fn reservation_owners_are_listed() {
    let mut reservations = PendingInputReservations::new();
    reservations.reserve(&vec![out_point(1, 0), out_point(1, 1)], &vec![9u8; 32]);
    let owners = reservations.owner_hashes();
    assert_eq!(owners, vec![vec![9u8; 32], vec![9u8; 32]]);
    reservations.retain_pending(&Vec::new());
    assert!(reservations.owner_hashes().is_empty());
}

#[test]
fn wallet_balance_pages_are_summed_and_checked() {
    let mut tally = BalanceTally::new();
    let full_page = vec![10u64; CKB_BALANCE_PAGE_SIZE as usize];
    assert_eq!(tally.accept_page(&full_page, vec![1]), Ok(false));
    assert_eq!(tally.after, Some(vec![1]));
    assert_eq!(
        tally.accept_page(&full_page, vec![1]),
        Err("CKB wallet cell pagination cursor did not advance".to_string())
    );
    assert_eq!(tally.cell_count, 1_000);
    assert_eq!(tally.accept_page(&vec![5, 50_000_000_000], vec![2]), Ok(true));
    assert_eq!(tally.cell_count, 1_002);
    assert_eq!(tally.capacity_shannons, 50_000_010_005);

    let mut overflowing = BalanceTally::new();
    assert_eq!(
        overflowing.accept_page(&vec![u64::MAX, 1], vec![]),
        Err("CKB wallet capacity overflowed u64".to_string())
    );
    assert_eq!(overflowing.capacity_shannons, 0);

    let readiness = evaluate_ckb_readiness(10, 1_000, 10, 1_000);
    let balance = ckb_balance(&readiness, "ckt1addr".to_string(), &vec![0xab, 0x01], &tally);
    assert!(balance.ready);
    assert_eq!(balance.mode, "light_client");
    assert_eq!(balance.lock_args, "0xab01");
    assert_eq!(balance.cell_count, 1_002);
    assert_eq!(balance.capacity_shannons, "50000010005");
    assert_eq!(balance.capacity_ckb, "500.00010005");
    assert_eq!(balance.scope, "base_ckb_only");
}

#[test]
fn genesis_funding_lock_matches_ckb_sdk() {
    let type_script = script(7);
    let secret = secp256k1::SecretKey::from_slice(&[1u8; 32]).unwrap();
    let secp = secp256k1::Secp256k1::new();
    let public = secp256k1::PublicKey::from_secret_key(&secp, &secret);
    let payload = ckb_sdk::AddressPayload::from_pubkey(&public);
    let packed_type = ckb_types::packed::Script::new_builder()
        .code_hash(ckb_types::packed::Byte32::from_slice(&type_script.code_hash).unwrap())
        .hash_type(ckb_types::packed::Byte::new(1))
        .args(type_script.args.pack())
        .build();

    let lock = funding_lock_from_type_script(&type_script, &vec![1u8; 32]).unwrap();
    assert_eq!(lock.code_hash, packed_type.calc_script_hash().as_slice().to_vec());
    assert_eq!(lock.hash_type, ScriptHashType::Type);
    assert_eq!(lock.args, payload.args().to_vec());
    assert!(funding_lock_from_type_script(&type_script, &vec![0u8; 32])
        .unwrap_err()
        .starts_with("failed to read the CKB funding key: "));
}

#[test]
fn connect_requests_name_exactly_one_peer() {
    let address = "/ip4/127.0.0.1/tcp/8228".to_string();
    match connect_peer_options(&CText::Text(address.clone()), &CText::Null, &CText::Null, 1) {
        Ok(ConnectPeerOptions::Address { address: a, save }) => {
            assert_eq!(a, address);
            assert!(save);
        }
        _ => panic!("an address request is accepted"),
    }
    let secret = secp256k1::SecretKey::from_slice(&[1u8; 32]).unwrap();
    let secp = secp256k1::Secp256k1::new();
    let public = hex::encode(secp256k1::PublicKey::from_secret_key(&secp, &secret).serialize());
    match connect_peer_options(&CText::Null, &CText::Text(public), &CText::Text("WSS".into()), 0) {
        Ok(ConnectPeerOptions::Pubkey { pubkey, address_type }) => {
            assert_eq!(pubkey.bytes.len(), 33);
            assert_eq!(address_type, Some(TransportType::Wss));
        }
        _ => panic!("a key request is accepted"),
    }
    let both = connect_peer_options(&CText::Text(address), &CText::Text("02".into()), &CText::Null, 0);
    assert_eq!(both.unwrap_err().message, "exactly one of address or pubkey must be set");
    let neither = connect_peer_options(&CText::Null, &CText::Null, &CText::Null, 0);
    assert_eq!(neither.unwrap_err().message, "exactly one of address or pubkey must be set");
    let empty = connect_peer_options(&CText::Text(String::new()), &CText::Null, &CText::Null, 0);
    assert_eq!(empty.unwrap_err().message, "address must not be empty");
    let bad = connect_peer_options(&CText::Text("not an address".into()), &CText::Null, &CText::Null, 0)
        .unwrap_err();
    assert_eq!(bad.status, FiberFfiStatus::InvalidArgument);
    assert!(!bad.message.is_empty());
}

#[test]
fn a_process_stays_on_its_first_chain() {
    assert_eq!(chain_hash_admission(&None, "0xaa"), Ok(true));
    assert_eq!(chain_hash_admission(&Some("0xaa".to_string()), "0xaa"), Ok(false));
    assert_eq!(
        chain_hash_admission(&Some("0xaa".to_string()), "0xbb"),
        Err("cannot restart fiber with a different chain hash in the same process".to_string())
    );
}

#[test]
fn cellbase_maturity_needs_an_epoch_length() {
    assert!(maturity_is_readable(0));
    assert!(maturity_is_readable(0x0701_8000_0000_0004));
    assert!(!maturity_is_readable(4));
}

#[test]
fn prepare_progress_exposes_distinct_light_client_statuses() {
    let status_of = |report: &ParamObject| {
        report.entries.iter().find(|(key, _)| key == "status").map(|(_, value)| match value {
            ParamValue::Text(text) => text.clone(),
            _ => String::new(),
        })
    };
    let statuses = [
        CkbPrepareStatus::Initializing,
        CkbPrepareStatus::WalletBirthday {
            address: "ckt1".to_string(),
            history_start_block: 42,
            source: "persisted".to_string(),
        },
        CkbPrepareStatus::Connecting {
            connected_peers: 1,
            required_peers: 2,
            tip_block_number: 10,
            tip_is_current: false,
        },
        CkbPrepareStatus::SyncingHeaders {
            connected_peers: 2,
            required_peers: 2,
            tip_block_number: 10,
            tip_is_current: false,
        },
        CkbPrepareStatus::SyncingScripts {
            tip_block_number: 10,
            slowest_script_block_number: 3,
            script_count: 4,
        },
    ];
    let names: Vec<String> =
        statuses.iter().map(|status| status_of(&progress_report(status)).unwrap()).collect();
    assert_eq!(
        names,
        vec!["initializing", "wallet_birthday", "connecting", "syncing_headers", "syncing_scripts"]
    );
    let scripts = progress_report(&statuses[4]);
    assert!(scripts
        .entries
        .iter()
        .any(|(key, value)| key == "slowest_script_block_number"
            && matches!(value, ParamValue::Number(3))));
    assert_eq!(status_of(&ready_report()).unwrap(), "ready");
    let failure = failure_report("broken\0peer");
    assert_eq!(status_of(&failure).unwrap(), "failed");
    assert!(failure.entries.iter().any(|(key, value)| key == "error"
        && matches!(value, ParamValue::Text(text) if text == "broken\\0peer")));
}
