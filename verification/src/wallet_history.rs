//! Where the CKB wallet history scan starts: discovery through an external
//! indexer, the persisted wallet birthday, and the rule that preparation never
//! moves a known start height forward.
use vstd::prelude::*;

use crate::ffi_types::{optional_u64, sanitized, FfiError, FiberFfiStatus};
use crate::readiness::saturating_sub;
use crate::text::{
    chars_from, chars_of, decimal, hex_parse_error_message, hex_parse_error_text, owned, parse_hex, parse_hex_u64,
    push_decimal, push_str, seq_starts_with, starts_with, string_from_chars, trim, trimmed,
    HexParseError,
};

verus! {

/// Safety window subtracted from a discovered height, in blocks.
pub const DEFAULT_CKB_HISTORY_DISCOVERY_SAFETY_BLOCKS: u64 = 1_000;
/// Largest lag of the discovery indexer behind its node, in blocks.
pub const DEFAULT_CKB_HISTORY_DISCOVERY_MAX_INDEXER_LAG: u64 = 100;
/// Version of the persisted wallet birthday record.
pub const CKB_WALLET_BIRTHDAY_VERSION: u32 = 1;

/// A C optional read as `optional_u64` reads it: absent, present, or the
/// error naming `field` for any other flag.
pub open spec fn c_optional(has_value: i32, value: u64, field: Seq<char>) -> Result<Option<u64>, Seq<char>> {
    if has_value == 0 {
        Ok(None)
    } else if has_value == 1 {
        Ok(Some(value))
    } else {
        Err(field + " must be 0 or 1"@)
    }
}

/// The safety window and indexer lag limit of a C discovery request: the
/// supplied values, the defaults where absent, or the first flag that is
/// neither 0 nor 1.
pub open spec fn discovery_limits_of(
    has_safety_blocks: i32,
    safety_blocks: u64,
    has_max_indexer_lag: i32,
    max_indexer_lag: u64,
) -> Result<(u64, u64), Seq<char>> {
    match c_optional(has_safety_blocks, safety_blocks, "has_safety_blocks"@) {
        Err(m) => Err(m),
        Ok(s) => match c_optional(has_max_indexer_lag, max_indexer_lag, "has_max_indexer_lag"@) {
            Err(m) => Err(m),
            Ok(l) => Ok(
                (
                    match s {
                        Some(v) => v,
                        None => DEFAULT_CKB_HISTORY_DISCOVERY_SAFETY_BLOCKS,
                    },
                    match l {
                        Some(v) => v,
                        None => DEFAULT_CKB_HISTORY_DISCOVERY_MAX_INDEXER_LAG,
                    },
                ),
            ),
        },
    }
}

/// Reads the safety window and indexer lag limit of a C discovery request,
/// defaulting each that is absent.
pub fn discovery_limits(
    has_safety_blocks: i32,
    safety_blocks: u64,
    has_max_indexer_lag: i32,
    max_indexer_lag: u64,
) -> (r: Result<(u64, u64), FfiError>)
    ensures
        match discovery_limits_of(has_safety_blocks, safety_blocks, has_max_indexer_lag, max_indexer_lag) {
            Ok(v) => r == Ok::<(u64, u64), FfiError>(v),
            Err(m) => r matches Err(e) && e.status == FiberFfiStatus::InvalidArgument && e.message@
                == sanitized(m),
        },
{
    let safety = match optional_u64(has_safety_blocks, safety_blocks, "has_safety_blocks") {
        Ok(v) => v,
        Err(e) => {
            return Err(e);
        },
    };
    let lag = match optional_u64(has_max_indexer_lag, max_indexer_lag, "has_max_indexer_lag") {
        Ok(v) => v,
        Err(e) => {
            return Err(e);
        },
    };
    Ok(
        (
            match safety {
                Some(v) => v,
                None => DEFAULT_CKB_HISTORY_DISCOVERY_SAFETY_BLOCKS,
            },
            match lag {
                Some(v) => v,
                None => DEFAULT_CKB_HISTORY_DISCOVERY_MAX_INDEXER_LAG,
            },
        ),
    )
}

/// What an external indexer reported about a wallet.
#[derive(Clone, Debug, PartialEq, Eq)]
pub struct WalletHistoryDiscovery {
    pub indexer_tip: u64,
    pub earliest_base_ckb_cell_block: Option<u64>,
}

/// The persisted, wallet-bound history start height.
#[derive(Clone, Debug)]
pub struct WalletBirthdayMetadata {
    pub version: u32,
    pub network: String,
    pub genesis_hash: String,
    pub address: String,
    pub lock_args: String,
    pub history_start_block: u64,
    pub source: String,
}

/// The block to start scanning from: the earliest base-CKB cell of the
/// wallet (or the indexer tip for an empty wallet), less the safety window,
/// never below zero.
pub open spec fn wallet_history_start(discovery: WalletHistoryDiscovery, safety_blocks: nat) -> nat {
    let anchor = match discovery.earliest_base_ckb_cell_block {
        Some(h) => h as nat,
        None => discovery.indexer_tip as nat,
    };
    saturating_sub(anchor, safety_blocks)
}

pub fn select_wallet_history_start_block(
    discovery: &WalletHistoryDiscovery,
    safety_blocks: u64,
) -> (r: u64)
    ensures
        r == wallet_history_start(*discovery, safety_blocks as nat),
{
    let anchor = match discovery.earliest_base_ckb_cell_block {
        Some(h) => h,
        None => discovery.indexer_tip,
    };
    if anchor >= safety_blocks { anchor - safety_blocks } else { 0 }
}

/// The discovered start lies `safety_blocks` before the wallet's earliest
/// base-CKB cell (before the indexer tip for an empty wallet), or at the
/// genesis block when that would go below it.
pub proof fn lemma_wallet_history_start_keeps_the_safety_window(
    discovery: WalletHistoryDiscovery,
    safety_blocks: nat,
)
    ensures
        ({
            let anchor: nat = match discovery.earliest_base_ckb_cell_block {
                Some(h) => h as nat,
                None => discovery.indexer_tip as nat,
            };
            let r = wallet_history_start(discovery, safety_blocks);
            &&& r <= anchor
            &&& anchor >= safety_blocks ==> r + safety_blocks == anchor
            &&& anchor < safety_blocks ==> r == 0
        }),
{
}

/// Whether `h` is one of the known heights.
pub open spec fn is_known(h: u64, o: Option<u64>) -> bool {
    o == Some(h)
}

/// The earliest known height, or zero when none is known.
pub open spec fn earliest_history_start(
    configured: Option<u64>,
    persisted: Option<u64>,
    discovered: Option<u64>,
    legacy: Option<u64>,
) -> u64 {
    let a = min_opt(min_opt(configured, persisted), min_opt(discovered, legacy));
    match a {
        Some(h) => h,
        None => 0,
    }
}

/// The smaller of two optional heights, ignoring absent ones.
pub open spec fn min_opt(a: Option<u64>, b: Option<u64>) -> Option<u64> {
    match (a, b) {
        (Some(x), Some(y)) => Some(if x <= y { x } else { y }),
        (Some(x), None) => Some(x),
        (None, Some(y)) => Some(y),
        (None, None) => None,
    }
}

fn min_opt_exec(a: Option<u64>, b: Option<u64>) -> (r: Option<u64>)
    ensures
        r == min_opt(a, b),
{
    match (a, b) {
        (Some(x), Some(y)) => Some(if x <= y { x } else { y }),
        (Some(x), None) => Some(x),
        (None, Some(y)) => Some(y),
        (None, None) => None,
    }
}

/// The earliest of the configured, persisted, discovered and legacy
/// heights; zero when none is supplied.
pub fn select_earliest_history_start_block(
    configured: Option<u64>,
    persisted: Option<u64>,
    discovered: Option<u64>,
    legacy: Option<u64>,
) -> (r: u64)
    ensures
        r == earliest_history_start(configured, persisted, discovered, legacy),
{
    match min_opt_exec(min_opt_exec(configured, persisted), min_opt_exec(discovered, legacy)) {
        Some(h) => h,
        None => 0,
    }
}

/// Preparation never moves a known history height forward: the selected
/// start height is at most every supplied height, it is one of them when any
/// is supplied, and it is zero (scan from genesis) when none is.
pub proof fn lemma_history_start_never_advances(
    configured: Option<u64>,
    persisted: Option<u64>,
    discovered: Option<u64>,
    legacy: Option<u64>,
)
    ensures
        ({
            let h = earliest_history_start(configured, persisted, discovered, legacy);
            &&& configured matches Some(c) ==> h <= c
            &&& persisted matches Some(p) ==> h <= p
            &&& discovered matches Some(d) ==> h <= d
            &&& legacy matches Some(l) ==> h <= l
            &&& (configured is Some || persisted is Some || discovered is Some || legacy is Some)
                ==> (is_known(h, configured) || is_known(h, persisted) || is_known(h, discovered)
                || is_known(h, legacy))
            &&& (configured is None && persisted is None && discovered is None && legacy is None)
                ==> h == 0
        }),
{
}

/// The indexer tip of a discovery endpoint whose node and indexer tips are
/// known, or why the endpoint cannot be used.
pub open spec fn discovery_tip_check(
    node_tip: u64,
    indexer_tip: Option<u64>,
    max_indexer_lag: u64,
) -> Result<u64, Seq<char>> {
    match indexer_tip {
        None => Err("wallet history discovery RPC has no CKB Indexer enabled"@),
        Some(t) => if t > node_tip {
            Err("wallet history discovery Indexer tip "@ + decimal(t as nat) + " is above its node tip "@
                + decimal(node_tip as nat))
        } else if node_tip - t > max_indexer_lag {
            Err("wallet history discovery Indexer is "@ + decimal((node_tip - t) as nat)
                + " blocks behind its node; maximum acceptable lag is "@ + decimal(max_indexer_lag as nat))
        } else {
            Ok(t)
        },
    }
}

/// The view of a result carrying a message as its error.
pub open spec fn result_text<T>(r: Result<T, String>) -> Result<T, Seq<char>> {
    match r {
        Ok(v) => Ok(v),
        Err(e) => Err(e@),
    }
}

/// Checks the tips reported by a discovery endpoint: it must have an
/// indexer, the indexer must not be ahead of its node, and it may trail the
/// node by at most `max_indexer_lag` blocks.
pub fn check_discovery_tips(node_tip: u64, indexer_tip: Option<u64>, max_indexer_lag: u64) -> (r:
    Result<u64, String>)
    ensures
        result_text(r) == discovery_tip_check(node_tip, indexer_tip, max_indexer_lag),
{
    match indexer_tip {
        None => Err(owned("wallet history discovery RPC has no CKB Indexer enabled")),
        Some(t) => {
            if t > node_tip {
                let mut m = owned("wallet history discovery Indexer tip ");
                push_decimal(&mut m, t);
                push_str(&mut m, " is above its node tip ");
                push_decimal(&mut m, node_tip);
                Err(m)
            } else if node_tip - t > max_indexer_lag {
                let mut m = owned("wallet history discovery Indexer is ");
                push_decimal(&mut m, node_tip - t);
                push_str(&mut m, " blocks behind its node; maximum acceptable lag is ");
                push_decimal(&mut m, max_indexer_lag);
                Err(m)
            } else {
                Ok(t)
            }
        },
    }
}

/// Whether the reported earliest cell lies above the indexer tip.
pub open spec fn cell_above_tip(earliest: Option<u64>, indexer_tip: u64) -> bool {
    match earliest {
        Some(h) => h > indexer_tip,
        None => false,
    }
}

/// Combines a checked indexer tip with the block of the wallet's earliest
/// base-CKB cell, which cannot lie above that tip.
pub fn finish_wallet_history_discovery(indexer_tip: u64, earliest_base_ckb_cell_block: Option<u64>) -> (r:
    Result<WalletHistoryDiscovery, String>)
    ensures
        cell_above_tip(earliest_base_ckb_cell_block, indexer_tip) ==> (r matches Err(e)
            && e@ == "wallet history discovery Indexer returned a Cell above its own tip"@),
        !cell_above_tip(earliest_base_ckb_cell_block, indexer_tip) ==> r == Ok::<
            WalletHistoryDiscovery,
            String,
        >(WalletHistoryDiscovery { indexer_tip, earliest_base_ckb_cell_block }),
{
    match earliest_base_ckb_cell_block {
        Some(h) => {
            if h > indexer_tip {
                return Err(owned("wallet history discovery Indexer returned a Cell above its own tip"));
            }
        },
        None => {},
    }
    Ok(WalletHistoryDiscovery { indexer_tip, earliest_base_ckb_cell_block })
}

/// The first field of the metadata that differs from the wallet being
/// prepared, with its expected and found values.
pub open spec fn first_mismatch(
    metadata: WalletBirthdayMetadata,
    network: Seq<char>,
    genesis_hash: Seq<char>,
    address: Seq<char>,
    lock_args: Seq<char>,
) -> Option<(Seq<char>, Seq<char>, Seq<char>)> {
    if metadata.network@ != network {
        Some(("network"@, network, metadata.network@))
    } else if metadata.genesis_hash@ != genesis_hash {
        Some(("genesis_hash"@, genesis_hash, metadata.genesis_hash@))
    } else if metadata.address@ != address {
        Some(("address"@, address, metadata.address@))
    } else if metadata.lock_args@ != lock_args {
        Some(("lock_args"@, lock_args, metadata.lock_args@))
    } else {
        None
    }
}

/// Why a persisted wallet birthday at `path` cannot be used for this wallet.
pub open spec fn birthday_rejection(
    metadata: WalletBirthdayMetadata,
    network: Seq<char>,
    genesis_hash: Seq<char>,
    address: Seq<char>,
    lock_args: Seq<char>,
    path: Seq<char>,
) -> Option<Seq<char>> {
    if metadata.version != CKB_WALLET_BIRTHDAY_VERSION {
        Some("wallet birthday "@ + path + " has unsupported version "@ + decimal(metadata.version as nat))
    } else {
        match first_mismatch(metadata, network, genesis_hash, address, lock_args) {
            Some((field, expected, found)) => Some("wallet birthday "@ + path
                + " belongs to a different "@ + field + ": expected "@ + expected + ", found "@ + found),
            None => None,
        }
    }
}

/// A persisted wallet birthday is accepted exactly when it has the current
/// version and was written for the same network, genesis block, address and
/// lock args; a refusal for a differing field names that field with the
/// expected and the found value.
pub proof fn lemma_birthday_accepted_only_for_the_same_wallet(
    metadata: WalletBirthdayMetadata,
    network: Seq<char>,
    genesis_hash: Seq<char>,
    address: Seq<char>,
    lock_args: Seq<char>,
    path: Seq<char>,
)
    ensures
        birthday_rejection(metadata, network, genesis_hash, address, lock_args, path) is None <==> {
            &&& metadata.version == CKB_WALLET_BIRTHDAY_VERSION
            &&& metadata.network@ == network
            &&& metadata.genesis_hash@ == genesis_hash
            &&& metadata.address@ == address
            &&& metadata.lock_args@ == lock_args
        },
        metadata.version == CKB_WALLET_BIRTHDAY_VERSION && metadata.network@ == network
            && metadata.genesis_hash@ != genesis_hash ==> birthday_rejection(
            metadata,
            network,
            genesis_hash,
            address,
            lock_args,
            path,
        ) == Some(
            "wallet birthday "@ + path + " belongs to a different "@ + "genesis_hash"@ + ": expected "@
                + genesis_hash + ", found "@ + metadata.genesis_hash@,
        ),
{
}

fn mismatch_message(path: &str, field: &str, expected: &str, found: &str) -> (m: String)
    ensures
        m@ == "wallet birthday "@ + path@ + " belongs to a different "@ + field@ + ": expected "@
            + expected@ + ", found "@ + found@,
{
    let mut m = owned("wallet birthday ");
    push_str(&mut m, path);
    push_str(&mut m, " belongs to a different ");
    push_str(&mut m, field);
    push_str(&mut m, ": expected ");
    push_str(&mut m, expected);
    push_str(&mut m, ", found ");
    push_str(&mut m, found);
    m
}

/// Accepts a persisted wallet birthday only when it has the current version
/// and belongs to the same network, genesis block, address and lock args.
pub fn validate_wallet_birthday_metadata(
    metadata: &WalletBirthdayMetadata,
    network: &str,
    genesis_hash: &str,
    address: &str,
    lock_args: &str,
    path: &str,
) -> (r: Result<(), String>)
    ensures
        match birthday_rejection(*metadata, network@, genesis_hash@, address@, lock_args@, path@) {
            Some(m) => r matches Err(e) && e@ == m,
            None => r is Ok,
        },
{
    if metadata.version != CKB_WALLET_BIRTHDAY_VERSION {
        let mut m = owned("wallet birthday ");
        push_str(&mut m, path);
        push_str(&mut m, " has unsupported version ");
        push_decimal(&mut m, metadata.version as u64);
        return Err(m);
    }
    if !crate::text::str_eq(metadata.network.as_str(), network) {
        return Err(mismatch_message(path, "network", network, metadata.network.as_str()));
    }
    if !crate::text::str_eq(metadata.genesis_hash.as_str(), genesis_hash) {
        return Err(mismatch_message(path, "genesis_hash", genesis_hash, metadata.genesis_hash.as_str()));
    }
    if !crate::text::str_eq(metadata.address.as_str(), address) {
        return Err(mismatch_message(path, "address", address, metadata.address.as_str()));
    }
    if !crate::text::str_eq(metadata.lock_args.as_str(), lock_args) {
        return Err(mismatch_message(path, "lock_args", lock_args, metadata.lock_args.as_str()));
    }
    Ok(())
}

/// The history height chosen for a wallet and where it came from.
#[derive(Clone, Debug)]
pub struct WalletBirthdayResolution {
    pub history_start_block: u64,
    pub source: &'static str,
    /// Whether the height differs from the persisted one and must be written.
    pub persist: bool,
}

/// The label of the height chosen from the supplied ones.
pub open spec fn birthday_source(
    h: u64,
    configured: Option<u64>,
    persisted: Option<u64>,
    discovered: Option<u64>,
    legacy: Option<u64>,
) -> Seq<char> {
    if persisted == Some(h) {
        "persisted"@
    } else if legacy == Some(h) && discovered != Some(h) {
        "legacy_floor"@
    } else if discovered == Some(h) {
        "external_discovery"@
    } else if configured == Some(h) {
        "configured"@
    } else {
        "earliest_safe_height"@
    }
}

/// The label of a chosen height names a source that supplied exactly that
/// height, and a height that was persisted is always labelled persisted.
pub proof fn lemma_birthday_source_names_a_supplier(
    h: u64,
    configured: Option<u64>,
    persisted: Option<u64>,
    discovered: Option<u64>,
    legacy: Option<u64>,
)
    ensures
        ({
            let label = birthday_source(h, configured, persisted, discovered, legacy);
            &&& persisted == Some(h) ==> label == "persisted"@
            &&& label == "legacy_floor"@ ==> legacy == Some(h)
            &&& label == "external_discovery"@ ==> discovered == Some(h)
            &&& label == "configured"@ ==> configured == Some(h)
            &&& label == "persisted"@ ==> persisted == Some(h)
        }),
{
    reveal_strlit("persisted");
    reveal_strlit("legacy_floor");
    reveal_strlit("external_discovery");
    reveal_strlit("configured");
    reveal_strlit("earliest_safe_height");
    assert("persisted"@.len() == 9);
    assert("legacy_floor"@.len() == 12);
    assert("external_discovery"@.len() == 18);
    assert("configured"@.len() == 10);
    assert("earliest_safe_height"@.len() == 20);
}

/// Chooses the wallet history height before the Light Client starts: the
/// earliest supplied height, labelled by its origin, or the genesis block
/// (`default_genesis`) when nothing is known. A height that differs from the
/// persisted one is to be persisted; the genesis default is not.
pub fn resolve_wallet_birthday_height(
    configured: Option<u64>,
    persisted: Option<u64>,
    discovered: Option<u64>,
    legacy: Option<u64>,
) -> (r: WalletBirthdayResolution)
    ensures
        (configured is None && persisted is None && discovered is None && legacy is None) ==> {
            &&& r.history_start_block == 0
            &&& r.source@ == "default_genesis"@
            &&& !r.persist
        },
        !(configured is None && persisted is None && discovered is None && legacy is None) ==> {
            let h = earliest_history_start(configured, persisted, discovered, legacy);
            &&& r.history_start_block == h
            &&& r.source@ == birthday_source(h, configured, persisted, discovered, legacy)
            &&& r.persist == (persisted != Some(h))
        },
{
    if configured.is_none() && persisted.is_none() && discovered.is_none() && legacy.is_none() {
        return WalletBirthdayResolution {
            history_start_block: 0,
            source: "default_genesis",
            persist: false,
        };
    }
    let h = select_earliest_history_start_block(configured, persisted, discovered, legacy);
    let source = if persisted == Some(h) {
        "persisted"
    } else if legacy == Some(h) && discovered != Some(h) {
        "legacy_floor"
    } else if discovered == Some(h) {
        "external_discovery"
    } else if configured == Some(h) {
        "configured"
    } else {
        "earliest_safe_height"
    };
    WalletBirthdayResolution { history_start_block: h, source, persist: persisted != Some(h) }
}

/// The record persisted for a newly chosen wallet birthday.
pub fn wallet_birthday_metadata(
    network: String,
    genesis_hash: String,
    address: String,
    lock_args: String,
    resolution: &WalletBirthdayResolution,
) -> (m: WalletBirthdayMetadata)
    ensures
        m.version == CKB_WALLET_BIRTHDAY_VERSION,
        m.network == network,
        m.genesis_hash == genesis_hash,
        m.address == address,
        m.lock_args == lock_args,
        m.history_start_block == resolution.history_start_block,
        m.source@ == resolution.source@,
{
    WalletBirthdayMetadata {
        version: CKB_WALLET_BIRTHDAY_VERSION,
        network,
        genesis_hash,
        address,
        lock_args,
        history_start_block: resolution.history_start_block,
        source: owned(resolution.source),
    }
}

/// The height a legacy history start file holds: its trimmed contents must
/// be `0x` followed by hexadecimal digits that fit in 64 bits. `path` names
/// the file in errors.
pub open spec fn legacy_history_start(path: Seq<char>, contents: Seq<char>) -> Result<
    u64,
    Seq<char>,
> {
    let v = trimmed(contents);
    if !seq_starts_with(v, seq!['0', 'x']) {
        Err("legacy wallet birthday "@ + path + " must be a 0x-prefixed hexadecimal height"@)
    } else if v.len() == 2 {
        Err("legacy wallet birthday "@ + path + " has an empty height"@)
    } else {
        match parse_hex_u64(v.skip(2)) {
            Ok(n) => Ok(n as u64),
            Err(e) => Err("invalid legacy wallet birthday "@ + path + ": "@ + hex_parse_error_text(e)),
        }
    }
}

/// Reads the height from the contents of a legacy history start file.
pub fn parse_legacy_history_start_block(path: &str, contents: &str) -> (r: Result<u64, String>)
    ensures
        match legacy_history_start(path@, contents@) {
            Ok(n) => r == Ok::<u64, String>(n),
            Err(e) => r matches Err(m) && m@ == e,
        },
{
    let v = trim(&chars_of(contents));
    let prefix: Vec<char> = vec!['0', 'x'];
    if !starts_with(&v, &prefix) {
        let mut m = owned("legacy wallet birthday ");
        push_str(&mut m, path);
        push_str(&mut m, " must be a 0x-prefixed hexadecimal height");
        return Err(m);
    }
    if v.len() == 2 {
        let mut m = owned("legacy wallet birthday ");
        push_str(&mut m, path);
        push_str(&mut m, " has an empty height");
        return Err(m);
    }
    match parse_hex(&chars_from(&v, 2)) {
        Ok(n) => Ok(n),
        Err(e) => {
            let mut m = owned("invalid legacy wallet birthday ");
            push_str(&mut m, path);
            push_str(&mut m, ": ");
            push_str(&mut m, hex_parse_error_message(e));
            Err(m)
        },
    }
}

} // verus!
