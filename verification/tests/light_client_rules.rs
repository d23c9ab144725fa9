use fiber_ffi::ckb_script::{Script, ScriptHashType};
use fiber_ffi::light_client::rpc_rules::{
    indexed_tip_number, interpret_external_liveness_status, route_method, Route, ScriptStatus,
    ScriptType,
};
use fiber_ffi::light_client::runtime_rules::{registration_height, startup_required_script_height};

fn script(tag: u8) -> Script {
    Script {
        code_hash: vec![tag; 32],
        hash_type: ScriptHashType::Data,
        args: Vec::new(),
    }
}

fn status(script: Script, block_number: u64) -> ScriptStatus {
    ScriptStatus {
        script,
        script_type: ScriptType::Lock,
        block_number,
    }
}

#[test]
fn registration_includes_first_required_block() {
    assert_eq!(registration_height(0), 0);
    assert_eq!(registration_height(1), 0);
    assert_eq!(registration_height(42), 41);
}

#[test]
fn startup_script_lag_tolerance_has_an_inclusive_saturating_boundary() {
    assert_eq!(startup_required_script_height(1_000, 100), 900);
    assert_eq!(startup_required_script_height(52, 100), 0);
    assert_eq!(startup_required_script_height(0, 100), 0);
}

#[test]
fn routing_is_fixed_before_execution() {
    assert_eq!(route_method("get_cells"), Route::Local);
    assert_eq!(route_method("get_epoch_by_number"), Route::Local);
    assert_eq!(route_method("get_live_cell"), Route::Local);
    assert_eq!(route_method("send_transaction"), Route::Local);
    assert_eq!(route_method("set_scripts"), Route::Unsupported);
}

#[test]
fn external_liveness_reference_only_accepts_live() {
    assert_eq!(interpret_external_liveness_status("live"), Ok(true));
    assert_eq!(interpret_external_liveness_status("dead"), Ok(false));
    assert_eq!(interpret_external_liveness_status("unknown"), Ok(false));
    assert!(interpret_external_liveness_status("pending").is_err());
}

#[test]
fn unsupported_liveness_status_is_quoted_in_the_error() {
    assert_eq!(
        interpret_external_liveness_status("pending").unwrap_err(),
        "peer funding liveness RPC returned unsupported cell status \"pending\""
    );
}

#[test]
fn operational_tip_is_the_slowest_complete_script_height() {
    let scripts = vec![status(script(1), 120), status(script(2), 114)];

    assert_eq!(indexed_tip_number(121, &scripts), 114);
    assert_eq!(indexed_tip_number(121, &[].to_vec()), 121);
    assert_eq!(indexed_tip_number(121, &vec![status(script(3), 130)]), 121);
}
