use fiber_ffi::ffi_params::{
    list_payments_params_from_options, new_invoice_params_from_options,
    open_channel_params_from_options, required_hash_param, submit_signed_funding_tx_params_from_options,
    CText, ListPaymentsOptions, NewInvoiceOptions, OpenChannelOptions, ParamObject, ParamValue,
    SubmitSignedFundingTxOptions,
};
use fiber_ffi::ffi_types::{error_copy_length, FiberFfiStatus, FiberU128};

const LAYOUT: usize = 64;

fn text(value: &str) -> CText {
    CText::Text(value.to_string())
}

fn field<'a>(object: &'a ParamObject, key: &str) -> Option<&'a ParamValue> {
    object
        .entries
        .iter()
        .find(|(name, _)| name == key)
        .map(|(_, value)| value)
}

fn as_text(value: Option<&ParamValue>) -> Option<String> {
    match value {
        Some(ParamValue::Text(text)) => Some(text.clone()),
        _ => None,
    }
}

fn open_channel() -> OpenChannelOptions {
    OpenChannelOptions {
        struct_size: LAYOUT as u32,
        flags: 0,
        pubkey: text("02abc"),
        funding_amount: FiberU128 { low: 255, high: 0 },
        has_public: 1,
        public_: 0,
        has_one_way: 0,
        one_way: 1,
        funding_udt_type_script_json: CText::Null,
        shutdown_script_json: text(""),
        commitment_delay_epoch: 7,
        has_commitment_delay_epoch: 1,
        commitment_fee_rate: 4096,
        has_commitment_fee_rate: 1,
        funding_fee_rate: 0,
        has_funding_fee_rate: 0,
        tlc_expiry_delta: 0,
        has_tlc_expiry_delta: 0,
        tlc_min_value: FiberU128 { low: 0, high: 1 },
        has_tlc_min_value: 1,
        tlc_fee_proportional_millionths: FiberU128 { low: 0, high: 0 },
        has_tlc_fee_proportional_millionths: 0,
        max_tlc_value_in_flight: FiberU128 { low: 0, high: 0 },
        has_max_tlc_value_in_flight: 0,
        max_tlc_number_in_flight: 0,
        has_max_tlc_number_in_flight: 0,
    }
}

#[test]
fn open_channel_fields_follow_the_options() {
    let params = open_channel_params_from_options(open_channel(), LAYOUT).unwrap();
    let keys: Vec<&str> = params.entries.iter().map(|(key, _)| key.as_str()).collect();
    assert_eq!(
        keys,
        vec![
            "pubkey",
            "funding_amount",
            "public",
            "commitment_delay_epoch",
            "commitment_fee_rate",
            "tlc_min_value"
        ]
    );
    assert_eq!(as_text(field(&params, "pubkey")).as_deref(), Some("02abc"));
    assert_eq!(as_text(field(&params, "funding_amount")).as_deref(), Some("0xff"));
    assert!(matches!(field(&params, "public"), Some(ParamValue::Bool(false))));
    assert!(matches!(
        field(&params, "commitment_delay_epoch"),
        Some(ParamValue::Number(7))
    ));
    assert_eq!(
        as_text(field(&params, "commitment_fee_rate")).as_deref(),
        Some("0x1000")
    );
    assert_eq!(
        as_text(field(&params, "tlc_min_value")).as_deref(),
        Some("0x10000000000000000")
    );
}

#[test]
fn option_errors_come_in_field_order() {
    let mut options = open_channel();
    options.pubkey = CText::Null;
    options.shutdown_script_json = text("{not json");
    let error = open_channel_params_from_options(options, LAYOUT).unwrap_err();
    assert_eq!(error.status, FiberFfiStatus::NullPointer);
    assert_eq!(error.message, "pubkey must be non-null");

    let mut options = open_channel();
    options.shutdown_script_json = text("{not json");
    let error = open_channel_params_from_options(options, LAYOUT).unwrap_err();
    assert_eq!(error.status, FiberFfiStatus::InvalidArgument);
    assert!(error.message.starts_with("invalid shutdown_script_json: "));

    let mut options = open_channel();
    options.flags = 1;
    let error = open_channel_params_from_options(options, LAYOUT).unwrap_err();
    assert_eq!(error.message, "FiberOpenChannelOptions.flags must be 0");

    let mut options = open_channel();
    options.struct_size = 8;
    let error = open_channel_params_from_options(options, LAYOUT).unwrap_err();
    assert_eq!(
        error.message,
        "FiberOpenChannelOptions.struct_size is too small: got 8, expected at least 64"
    );
}

#[test]
fn required_json_fields_name_the_option() {
    let options = SubmitSignedFundingTxOptions {
        struct_size: LAYOUT as u32,
        flags: 0,
        channel_id: text("0x01"),
        signed_funding_tx_json: CText::Null,
    };
    let error = submit_signed_funding_tx_params_from_options(options, LAYOUT).unwrap_err();
    assert_eq!(error.status, FiberFfiStatus::NullPointer);
    assert_eq!(error.message, "signed_funding_tx_json must be non-null");

    let options = SubmitSignedFundingTxOptions {
        struct_size: LAYOUT as u32,
        flags: 0,
        channel_id: text("0x01"),
        signed_funding_tx_json: text("{\"version\":\"0x0\"}"),
    };
    let params = submit_signed_funding_tx_params_from_options(options, LAYOUT).unwrap();
    assert!(matches!(
        field(&params, "signed_funding_tx"),
        Some(ParamValue::Json(json)) if json == "{\"version\":\"0x0\"}"
    ));
}

#[test]
fn payment_status_filters_map_to_node_names() {
    let options = |status| ListPaymentsOptions {
        struct_size: LAYOUT as u32,
        flags: 0,
        status,
        limit: 10,
        has_limit: 1,
        after: CText::Null,
    };
    let all = list_payments_params_from_options(options(0), LAYOUT).unwrap();
    assert!(field(&all, "status").is_none());
    assert_eq!(as_text(field(&all, "limit")).as_deref(), Some("0xa"));
    let inflight = list_payments_params_from_options(options(2), LAYOUT).unwrap();
    assert_eq!(as_text(field(&inflight, "status")).as_deref(), Some("Inflight"));
    let error = list_payments_params_from_options(options(9), LAYOUT).unwrap_err();
    assert_eq!(
        error.message,
        "status must be one of FIBER_PAYMENT_STATUS_FILTER_*"
    );
}

#[test]
fn invoice_currency_and_hash_algorithm_are_checked_in_order() {
    let options = |description: CText, currency, hash_algorithm| NewInvoiceOptions {
        struct_size: LAYOUT as u32,
        flags: 0,
        amount: FiberU128 { low: 100, high: 0 },
        description,
        currency,
        payment_preimage: CText::Null,
        payment_hash: CText::Null,
        expiry: 0,
        has_expiry: 0,
        fallback_address: CText::Null,
        final_expiry_delta: 0,
        has_final_expiry_delta: 0,
        udt_type_script_json: CText::Null,
        hash_algorithm,
        has_allow_mpp: 0,
        allow_mpp: 0,
        has_allow_trampoline_routing: 0,
        allow_trampoline_routing: 0,
    };
    let params = new_invoice_params_from_options(options(text("coffee"), 0, 2), LAYOUT).unwrap();
    assert_eq!(as_text(field(&params, "currency")).as_deref(), Some("Fibd"));
    assert_eq!(as_text(field(&params, "hash_algorithm")).as_deref(), Some("sha256"));
    assert_eq!(as_text(field(&params, "amount")).as_deref(), Some("0x64"));

    let error = new_invoice_params_from_options(
        options(CText::NotUtf8("invalid utf-8".to_string()), 7, 0),
        LAYOUT,
    )
    .unwrap_err();
    assert_eq!(error.message, "invalid utf-8");
    let error = new_invoice_params_from_options(options(text(""), 7, 9), LAYOUT).unwrap_err();
    assert_eq!(error.message, "currency must be one of FIBER_INVOICE_CURRENCY_*");
    let error = new_invoice_params_from_options(options(text(""), 1, 9), LAYOUT).unwrap_err();
    assert_eq!(
        error.message,
        "hash_algorithm must be one of FIBER_HASH_ALGORITHM_*"
    );
}

#[test]
fn hash_parameters_hold_one_string() {
    let params = required_hash_param("payment_hash", text("0xabc")).unwrap();
    assert_eq!(params.entries.len(), 1);
    assert_eq!(as_text(field(&params, "payment_hash")).as_deref(), Some("0xabc"));
    let error = required_hash_param("payment_hash", CText::Null).unwrap_err();
    assert_eq!(error.message, "payment_hash must be non-null");
}

#[test]
fn last_error_copies_fit_before_the_terminating_nul() {
    assert_eq!(error_copy_length(5, 100), 5);
    assert_eq!(error_copy_length(5, 6), 5);
    assert_eq!(error_copy_length(5, 5), 4);
    assert_eq!(error_copy_length(5, 1), 0);
}
