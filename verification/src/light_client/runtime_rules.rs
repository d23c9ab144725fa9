//! When the embedded Light Client counts as ready during startup, and the
//! heights at which required scripts are registered.
use vstd::prelude::*;

use crate::ffi_params::{entries_view, param_view, ParamObject, ParamValue, ParamView};
use crate::ffi_types::{sanitize_error_message, sanitized};
use crate::readiness::{abs_diff, saturating_sub};
use crate::text::owned;

verus! {

/// Oldest acceptable Light Client tip header, in milliseconds (two hours).
pub const MAX_TIP_AGE_MILLIS: u64 = 7_200_000;

/// The scanned height every required script must reach before startup
/// completes: the fixed target tip less the tolerated lag, never below zero.
pub fn startup_required_script_height(target_tip: u64, lag_tolerance: u64) -> (r: u64)
    ensures
        r == saturating_sub(target_tip as nat, lag_tolerance as nat),
{
    if target_tip >= lag_tolerance { target_tip - lag_tolerance } else { 0 }
}

/// The block number a script is registered with so that the Light Client's
/// scan, which covers the blocks after it, includes `first_required_block`.
pub fn registration_height(first_required_block: u64) -> (r: u64)
    ensures
        r == saturating_sub(first_required_block as nat, 1),
{
    if first_required_block >= 1 { first_required_block - 1 } else { 0 }
}

/// The first block whose cells a script's index is known to contain, given
/// the block number it was registered or scanned with: block 0 itself, or
/// the block after a non-zero number.
pub open spec fn first_indexed_block(status_block: nat) -> nat {
    if status_block == 0 { 0 } else { status_block + 1 }
}

/// The first indexed block of a registration or scan progress.
pub fn first_indexed_block_of(status_block: u64) -> (r: u64)
    ensures
        r as nat == if status_block == u64::MAX { u64::MAX as nat } else { first_indexed_block(status_block as nat) },
{
    if status_block == 0 { 0 } else if status_block == u64::MAX { u64::MAX } else { status_block + 1 }
}

/// Registering a script for its first required block never leaves that
/// block out: the index it builds starts at or before the block.
pub proof fn lemma_registration_covers_first_required_block(first_required_block: nat)
    ensures
        first_indexed_block(saturating_sub(first_required_block, 1)) <= first_required_block,
        first_required_block >= 2 ==> first_indexed_block(saturating_sub(first_required_block, 1))
            == first_required_block,
{
}

/// A Light Client tip header is current when its timestamp lies within two
/// hours of `now_millis`, in either direction.
pub fn header_is_current(timestamp_millis: u64, now_millis: u64) -> (r: bool)
    ensures
        r == (abs_diff(now_millis as nat, timestamp_millis as nat) <= MAX_TIP_AGE_MILLIS),
{
    let diff = if now_millis >= timestamp_millis { now_millis - timestamp_millis } else { timestamp_millis - now_millis };
    diff <= MAX_TIP_AGE_MILLIS
}

/// Progress reported while the embedded Light Client prepares.
#[derive(Clone, Debug)]
pub enum CkbPrepareStatus {
    Initializing,
    WalletBirthday { address: String, history_start_block: u64, source: String },
    Connecting { connected_peers: usize, required_peers: usize, tip_block_number: u64, tip_is_current: bool },
    SyncingHeaders {
        connected_peers: usize,
        required_peers: usize,
        tip_block_number: u64,
        tip_is_current: bool,
    },
    SyncingScripts { tip_block_number: u64, slowest_script_block_number: u64, script_count: usize },
}

/// The chain is ready to serve once enough peers are connected and a
/// current tip past genesis is known.
pub open spec fn chain_is_ready(connected_peers: nat, required_peers: nat, tip_block_number: nat, tip_is_current: bool) -> bool {
    connected_peers >= required_peers && tip_block_number > 0 && tip_is_current
}

/// One observation of the chain while waiting for it: ready, or the progress
/// to report (connecting while peers are missing, otherwise syncing headers).
pub fn observe_chain(
    connected_peers: usize,
    required_peers: usize,
    tip_block_number: u64,
    header_current: bool,
) -> (r: Result<u64, CkbPrepareStatus>)
    ensures
        chain_is_ready(connected_peers as nat, required_peers as nat, tip_block_number as nat, header_current)
            ==> r == Ok::<u64, CkbPrepareStatus>(tip_block_number),
        !chain_is_ready(connected_peers as nat, required_peers as nat, tip_block_number as nat, header_current)
            ==> match r {
            Ok(_) => false,
            Err(CkbPrepareStatus::Connecting {
                connected_peers: c,
                required_peers: q,
                tip_block_number: t,
                tip_is_current: i,
            }) => connected_peers < required_peers && c == connected_peers && q == required_peers
                && t == tip_block_number && i == (tip_block_number > 0 && header_current),
            Err(CkbPrepareStatus::SyncingHeaders {
                connected_peers: c,
                required_peers: q,
                tip_block_number: t,
                tip_is_current: i,
            }) => connected_peers >= required_peers && c == connected_peers && q == required_peers
                && t == tip_block_number && i == (tip_block_number > 0 && header_current),
            _ => false,
        },
{
    let tip_is_current = tip_block_number > 0 && header_current;
    if connected_peers >= required_peers && tip_is_current {
        Ok(tip_block_number)
    } else if connected_peers < required_peers {
        Err(CkbPrepareStatus::Connecting {
            connected_peers,
            required_peers,
            tip_block_number,
            tip_is_current,
        })
    } else {
        Err(CkbPrepareStatus::SyncingHeaders {
            connected_peers,
            required_peers,
            tip_block_number,
            tip_is_current,
        })
    }
}

/// The lowest of the scanned heights, or zero when there are none.
pub open spec fn slowest(heights: Seq<u64>) -> nat
    decreases heights.len(),
{
    if heights.len() == 0 {
        0
    } else if heights.len() == 1 {
        heights[0] as nat
    } else {
        let rest = slowest(heights.drop_first());
        if (heights[0] as nat) <= rest { heights[0] as nat } else { rest }
    }
}

/// The lowest scanned height among `heights` (zero for none).
pub fn slowest_height(heights: &Vec<u64>) -> (r: u64)
    ensures
        r as nat == slowest(heights@),
        forall|i: int| 0 <= i < heights.len() ==> r <= #[trigger] heights@[i],
        heights.len() > 0 ==> exists|i: int| 0 <= i < heights.len() && r == #[trigger] heights@[i],
    decreases heights.len(),
{
    if heights.len() == 0 {
        return 0;
    }
    let mut k: usize = heights.len() - 1;
    let mut m: u64 = heights[k];
    proof {
        assert(heights@.subrange(k as int, heights.len() as int) =~= seq![heights@[k as int]]);
    }
    while k > 0
        invariant
            0 <= k < heights.len(),
            m as nat == slowest(heights@.subrange(k as int, heights.len() as int)),
            forall|i: int| k <= i < heights.len() ==> m <= #[trigger] heights@[i],
            exists|i: int| k <= i < heights.len() && m == #[trigger] heights@[i],
        decreases k,
    {
        k = k - 1;
        proof {
            let t = heights@.subrange(k as int, heights.len() as int);
            assert(t.drop_first() =~= heights@.subrange(k + 1, heights.len() as int));
            assert(t[0] == heights@[k as int]);
        }
        if heights[k] <= m {
            m = heights[k];
        }
    }
    proof {
        assert(heights@.subrange(0, heights.len() as int) =~= heights@);
    }
    m
}

/// Whether the required scripts have reached the startup height, and the
/// progress to report otherwise: the target tip, the slowest script height
/// and the number of scripts.
pub fn observe_required_scripts(
    script_heights: &Vec<u64>,
    target_tip: u64,
    lag_tolerance: u64,
) -> (r: Result<(), CkbPrepareStatus>)
    ensures
        (script_heights.len() > 0 && slowest(script_heights@) >= saturating_sub(target_tip as nat, lag_tolerance as nat))
            ==> r is Ok,
        !(script_heights.len() > 0 && slowest(script_heights@) >= saturating_sub(target_tip as nat, lag_tolerance as nat))
            ==> match r {
            Err(CkbPrepareStatus::SyncingScripts {
                tip_block_number: t,
                slowest_script_block_number: s,
                script_count: n,
            }) => t == target_tip && s as nat == slowest(script_heights@) && n == script_heights.len(),
            _ => false,
        },
{
    let slowest_script = slowest_height(script_heights);
    let required = startup_required_script_height(target_tip, lag_tolerance);
    if script_heights.len() > 0 && slowest_script >= required {
        Ok(())
    } else {
        Err(CkbPrepareStatus::SyncingScripts {
            tip_block_number: target_tip,
            slowest_script_block_number: slowest_script,
            script_count: script_heights.len(),
        })
    }
}


/// The fields every preparation report starts with.
pub open spec fn report_head(ready: bool) -> Seq<(Seq<char>, ParamView)> {
    seq![("ready"@, ParamView::Bool(ready)), ("mode"@, ParamView::Text("light_client"@))]
}

/// The fields of a progress report, as the preparation callback receives
/// them in its JSON.
pub open spec fn progress_fields(status: CkbPrepareStatus) -> Seq<(Seq<char>, ParamView)> {
    match status {
        CkbPrepareStatus::Initializing => report_head(false) + seq![
            ("status"@, ParamView::Text("initializing"@)),
        ],
        CkbPrepareStatus::WalletBirthday { address, history_start_block, source } => report_head(false)
            + seq![
            ("status"@, ParamView::Text("wallet_birthday"@)),
            ("address"@, ParamView::Text(address@)),
            ("history_start_block"@, ParamView::Number(history_start_block)),
            ("source"@, ParamView::Text(source@)),
        ],
        CkbPrepareStatus::Connecting { connected_peers, required_peers, tip_block_number, tip_is_current } =>
            report_head(false) + seq![
            ("status"@, ParamView::Text("connecting"@)),
            ("connected_peers"@, ParamView::Number(connected_peers as u64)),
            ("required_peers"@, ParamView::Number(required_peers as u64)),
            ("tip_block_number"@, ParamView::Number(tip_block_number)),
            ("tip_is_current"@, ParamView::Bool(tip_is_current)),
        ],
        CkbPrepareStatus::SyncingHeaders { connected_peers, required_peers, tip_block_number, tip_is_current } =>
            report_head(false) + seq![
            ("status"@, ParamView::Text("syncing_headers"@)),
            ("connected_peers"@, ParamView::Number(connected_peers as u64)),
            ("required_peers"@, ParamView::Number(required_peers as u64)),
            ("tip_block_number"@, ParamView::Number(tip_block_number)),
            ("tip_is_current"@, ParamView::Bool(tip_is_current)),
        ],
        CkbPrepareStatus::SyncingScripts { tip_block_number, slowest_script_block_number, script_count } =>
            report_head(false) + seq![
            ("status"@, ParamView::Text("syncing_scripts"@)),
            ("tip_block_number"@, ParamView::Number(tip_block_number)),
            ("slowest_script_block_number"@, ParamView::Number(slowest_script_block_number)),
            ("script_count"@, ParamView::Number(script_count as u64)),
        ],
    }
}

fn text_value(t: &str) -> (v: ParamValue)
    ensures
        param_view(v) == ParamView::Text(t@),
{
    ParamValue::Text(owned(t))
}

fn entry(key: &str, value: ParamValue) -> (e: (String, ParamValue))
    ensures
        e.0@ == key@,
        e.1 == value,
{
    (owned(key), value)
}

/// Starts a report with its `ready` and `mode` fields.
fn report_start(ready: bool) -> (r: Vec<(String, ParamValue)>)
    ensures
        entries_view(r@) == report_head(ready),
{
    let mut r: Vec<(String, ParamValue)> = Vec::new();
    r.push(entry("ready", ParamValue::Bool(ready)));
    r.push(entry("mode", text_value("light_client")));
    proof {
        assert(entries_view(r@) =~= report_head(ready));
    }
    r
}

/// Appends a field to a report.
fn push_field(r: &mut Vec<(String, ParamValue)>, key: &str, value: ParamValue)
    ensures
        entries_view(final(r)@) == entries_view(old(r)@).push((key@, param_view(value))),
{
    let ghost before = r@;
    r.push(entry(key, value));
    proof {
        assert(entries_view(r@) =~= entries_view(before).push((key@, param_view(value))));
    }
}

/// The report sent to the preparation callback for a progress update.
pub fn progress_report(status: &CkbPrepareStatus) -> (r: ParamObject)
    ensures
        entries_view(r.entries@) == progress_fields(*status),
{
    let mut e = report_start(false);
    match status {
        CkbPrepareStatus::Initializing => {
            push_field(&mut e, "status", text_value("initializing"));
        },
        CkbPrepareStatus::WalletBirthday { address, history_start_block, source } => {
            push_field(&mut e, "status", text_value("wallet_birthday"));
            push_field(&mut e, "address", text_value(address.as_str()));
            push_field(&mut e, "history_start_block", ParamValue::Number(*history_start_block));
            push_field(&mut e, "source", text_value(source.as_str()));
        },
        CkbPrepareStatus::Connecting { connected_peers, required_peers, tip_block_number, tip_is_current } => {
            push_field(&mut e, "status", text_value("connecting"));
            push_field(&mut e, "connected_peers", ParamValue::Number(*connected_peers as u64));
            push_field(&mut e, "required_peers", ParamValue::Number(*required_peers as u64));
            push_field(&mut e, "tip_block_number", ParamValue::Number(*tip_block_number));
            push_field(&mut e, "tip_is_current", ParamValue::Bool(*tip_is_current));
        },
        CkbPrepareStatus::SyncingHeaders { connected_peers, required_peers, tip_block_number, tip_is_current } => {
            push_field(&mut e, "status", text_value("syncing_headers"));
            push_field(&mut e, "connected_peers", ParamValue::Number(*connected_peers as u64));
            push_field(&mut e, "required_peers", ParamValue::Number(*required_peers as u64));
            push_field(&mut e, "tip_block_number", ParamValue::Number(*tip_block_number));
            push_field(&mut e, "tip_is_current", ParamValue::Bool(*tip_is_current));
        },
        CkbPrepareStatus::SyncingScripts { tip_block_number, slowest_script_block_number, script_count } => {
            push_field(&mut e, "status", text_value("syncing_scripts"));
            push_field(&mut e, "tip_block_number", ParamValue::Number(*tip_block_number));
            push_field(&mut e, "slowest_script_block_number", ParamValue::Number(*slowest_script_block_number));
            push_field(&mut e, "script_count", ParamValue::Number(*script_count as u64));
        },
    }
    proof {
        assert(entries_view(e@) =~= progress_fields(*status));
    }
    ParamObject { entries: e }
}

/// The final report of a preparation that finished: ready, not skipped.
pub fn ready_report() -> (r: ParamObject)
    ensures
        entries_view(r.entries@) == report_head(true) + seq![
            ("skipped"@, ParamView::Bool(false)),
            ("status"@, ParamView::Text("ready"@)),
        ],
{
    let mut e = report_start(true);
    push_field(&mut e, "skipped", ParamValue::Bool(false));
    push_field(&mut e, "status", text_value("ready"));
    proof {
        assert(entries_view(e@) =~= report_head(true) + seq![
            ("skipped"@, ParamView::Bool(false)),
            ("status"@, ParamView::Text("ready"@)),
        ]);
    }
    ParamObject { entries: e }
}

/// The final report of a preparation that failed with `error`, made safe
/// for a C string.
pub fn failure_report(error: &str) -> (r: ParamObject)
    ensures
        entries_view(r.entries@) == report_head(false) + seq![
            ("status"@, ParamView::Text("failed"@)),
            ("error"@, ParamView::Text(sanitized(error@))),
        ],
{
    let mut e = report_start(false);
    push_field(&mut e, "status", text_value("failed"));
    let safe = sanitize_error_message(error);
    push_field(&mut e, "error", ParamValue::Text(safe));
    proof {
        assert(entries_view(e@) =~= report_head(false) + seq![
            ("status"@, ParamView::Text("failed"@)),
            ("error"@, ParamView::Text(sanitized(error@))),
        ]);
    }
    ParamObject { entries: e }
}

} // verus!
