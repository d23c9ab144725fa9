use fiber_ffi::cli::{
    format_utc_timestamp, parse_args, parse_transport, program_name, read_yes_no, CliArgs,
    DEFAULT_CKB_DISCOVERY_RPC_URL,
};
use fiber_ffi::native::TransportType;

fn strings(values: &[&str]) -> Vec<String> {
    values.iter().map(|value| value.to_string()).collect()
}

#[test]
fn parses_cli_options() {
    let args = parse_args(strings(&[
        "fiber-demo-cli",
        "--data",
        "/tmp/fiber",
        "--ckb-discovery-rpc",
        "http://127.0.0.1:8114",
    ]))
    .unwrap()
    .unwrap();
    assert_eq!(args.data, "/tmp/fiber");
    assert_eq!(args.ckb_discovery_rpc, "http://127.0.0.1:8114");
}

#[test]
fn validates_peer_transport_names() {
    assert_eq!(parse_transport("").unwrap(), Some(TransportType::Tcp));
    assert_eq!(parse_transport("WSS").unwrap(), Some(TransportType::Wss));
    assert!(parse_transport("quic").is_err());
}

#[test]
fn formats_current_time_for_humans() {
    assert_eq!(format_utc_timestamp(0), "1970-01-01 00:00:00 UTC");
    assert_eq!(
        format_utc_timestamp(1_777_123_519),
        "2026-04-25 13:25:19 UTC"
    );
}

#[test]
fn formats_leap_days_and_year_ends() {
    assert_eq!(format_utc_timestamp(951_782_400), "2000-02-29 00:00:00 UTC");
    assert_eq!(format_utc_timestamp(978_307_199), "2000-12-31 23:59:59 UTC");
    assert_eq!(format_utc_timestamp(4_107_542_400), "2100-03-01 00:00:00 UTC");
}

#[test]
fn command_line_defaults_help_and_errors() {
    let defaults = parse_args(strings(&["fiber-demo-cli"])).unwrap().unwrap();
    let expected = CliArgs::default_args();
    assert_eq!(defaults.config, expected.config);
    assert_eq!(defaults.data, "tools/fiber-demo-cli/data");
    assert_eq!(defaults.log_level, "info,fiber_ffi=debug");
    assert!(defaults.log_file.is_none());
    assert_eq!(defaults.ckb_discovery_rpc, DEFAULT_CKB_DISCOVERY_RPC_URL);

    assert!(parse_args(strings(&["cli", "--data", "x", "--help"]))
        .unwrap()
        .is_none());
    assert_eq!(
        parse_args(strings(&["cli", "--config"])).unwrap_err(),
        "--config requires a value"
    );
    assert_eq!(
        parse_args(strings(&["cli", "--verbose", "1"])).unwrap_err(),
        "unknown argument: --verbose (use --help for usage)"
    );
    let args = parse_args(strings(&["cli", "--log-file", "/tmp/log", "--log-level", "warn"]))
        .unwrap()
        .unwrap();
    assert_eq!(args.log_file.as_deref(), Some("/tmp/log"));
    assert_eq!(args.log_level, "warn");

    assert_eq!(program_name(&strings(&["demo"])), "demo");
    assert_eq!(program_name(&Vec::new()), "fiber-demo-cli");
}

#[test]
fn yes_no_answers_ignore_case() {
    assert_eq!(read_yes_no("", true), Some(true));
    assert_eq!(read_yes_no("YES", false), Some(true));
    assert_eq!(read_yes_no("n", true), Some(false));
    assert_eq!(read_yes_no("maybe", true), None);
}
