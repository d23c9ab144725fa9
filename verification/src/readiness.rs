//! Readiness of the CKB backend: how far the indexer trails the chain tip,
//! whether the tip is recent, and a coarse estimate of the wait until the
//! index catches up.
use vstd::prelude::*;

use crate::ffi_types::{ffi_error, sanitized, FfiError, FiberFfiStatus};
use crate::text::{
    all_digits, digits_value, lemma_decimal_value, lemma_fixed_digits_value, pow10,
};
use crate::text::{decimal, owned, push_decimal, push_str, push_fixed_digits, fixed_digits};

verus! {

/// Oldest acceptable chain tip, in milliseconds (two hours).
pub const CKB_READINESS_MAX_TIP_AGE_MILLIS: u64 = 7_200_000;
/// Largest indexer lag accepted by the readiness check.
pub const CKB_READINESS_MAX_INDEXER_LAG: u64 = 0;
/// Suggested delay between readiness polls, in seconds.
pub const CKB_READINESS_RETRY_SECONDS: u64 = 3;
/// Number of blocks covered by one block-filter batch.
pub const CKB_FILTER_BATCH_SIZE: u64 = 1_000;
/// Time one peer request may take, in seconds.
pub const CKB_PEER_REQUEST_TIMEOUT_SECONDS: u64 = 60;

/// An estimate of how long the index needs to catch up.
#[derive(Clone, Debug, PartialEq, Eq)]
pub struct CkbWaitEstimate {
    pub lower_seconds: u64,
    pub upper_seconds: u64,
    pub retry_after_seconds: u64,
    pub confidence: &'static str,
}

/// The live chain/indexer state reported to applications.
#[derive(Clone, Debug)]
pub struct CkbReadiness {
    pub ready: bool,
    pub mode: &'static str,
    pub tip_block_number: Option<u64>,
    pub indexed_block_number: Option<u64>,
    pub lag: Option<u64>,
    pub max_acceptable_lag: u64,
    pub wait_estimate: Option<CkbWaitEstimate>,
    pub reason: Option<String>,
}

/// The view of an optional message.
pub open spec fn opt_text(o: Option<String>) -> Option<Seq<char>> {
    match o {
        Some(s) => Some(s@),
        None => None,
    }
}

/// Name of the CKB backend this library talks to.
pub open spec fn readiness_mode_text() -> Seq<char> {
    "light_client"@
}

/// The CKB backend this library talks to: the embedded Light Client,
/// served through its local RPC gateway.
pub fn ckb_readiness_mode() -> (m: &'static str)
    ensures
        m@ == readiness_mode_text(),
{
    "light_client"
}

/// `a - b`, or zero when `b > a`.
pub open spec fn saturating_sub(a: nat, b: nat) -> nat {
    if a >= b { (a - b) as nat } else { 0 }
}

/// `|a - b|`.
pub open spec fn abs_diff(a: nat, b: nat) -> nat {
    if a >= b { (a - b) as nat } else { (b - a) as nat }
}

/// A tip is current when it is past genesis and its timestamp lies within
/// two hours of the present, in either direction.
pub open spec fn tip_is_current(tip_block_number: nat, tip_timestamp_millis: nat, now_millis: nat) -> bool {
    tip_block_number > 0 && abs_diff(now_millis, tip_timestamp_millis) <= CKB_READINESS_MAX_TIP_AGE_MILLIS
}

/// The message for an indexer that trails the tip by more than allowed.
pub open spec fn lag_reason(lag: nat, max_acceptable_lag: nat) -> Seq<char> {
    "CKB indexer is "@ + decimal(lag) + " block(s) behind the chain tip; maximum acceptable lag is "@
        + decimal(max_acceptable_lag)
}

/// Why the backend is not ready, if it is not.
pub open spec fn readiness_reason(
    tip_block_number: nat,
    tip_timestamp_millis: nat,
    indexed_block_number: nat,
    now_millis: nat,
    max_acceptable_lag: nat,
) -> Option<Seq<char>> {
    let lag = saturating_sub(tip_block_number, indexed_block_number);
    if !tip_is_current(tip_block_number, tip_timestamp_millis, now_millis) {
        Some("CKB chain tip is not current"@)
    } else if lag > max_acceptable_lag {
        Some(lag_reason(lag, max_acceptable_lag))
    } else {
        None
    }
}

/// The readiness of a backend whose tip and indexer state are known.
pub open spec fn evaluated(
    r: CkbReadiness,
    tip_block_number: u64,
    tip_timestamp_millis: u64,
    indexed_block_number: u64,
    now_millis: u64,
    max_acceptable_lag: u64,
) -> bool {
    let reason = readiness_reason(
        tip_block_number as nat,
        tip_timestamp_millis as nat,
        indexed_block_number as nat,
        now_millis as nat,
        max_acceptable_lag as nat,
    );
    &&& r.ready == (reason is None)
    &&& r.mode@ == readiness_mode_text()
    &&& r.tip_block_number == Some(tip_block_number)
    &&& r.indexed_block_number == Some(indexed_block_number)
    &&& r.lag == Some(saturating_sub(tip_block_number as nat, indexed_block_number as nat) as u64)
    &&& r.max_acceptable_lag == max_acceptable_lag
    &&& r.wait_estimate is None
    &&& opt_text(r.reason) == reason
}

fn abs_diff_u64(a: u64, b: u64) -> (r: u64)
    ensures
        r == abs_diff(a as nat, b as nat),
{
    if a >= b { a - b } else { b - a }
}

impl CkbReadiness {
    /// A backend whose chain tip or indexer tip could not be read.
    pub fn unavailable(tip_block_number: Option<u64>, reason: String) -> (r: Self)
        ensures
            !r.ready,
            r.mode@ == readiness_mode_text(),
            r.tip_block_number == tip_block_number,
            r.indexed_block_number is None,
            r.lag is None,
            r.max_acceptable_lag == CKB_READINESS_MAX_INDEXER_LAG,
            r.wait_estimate is None,
            r.reason == Some(reason),
    {
        CkbReadiness {
            ready: false,
            mode: ckb_readiness_mode(),
            tip_block_number,
            indexed_block_number: None,
            lag: None,
            max_acceptable_lag: CKB_READINESS_MAX_INDEXER_LAG,
            wait_estimate: None,
            reason: Some(reason),
        }
    }
}

/// Readiness under the default indexer lag limit of zero blocks.
pub fn evaluate_ckb_readiness(
    tip_block_number: u64,
    tip_timestamp_millis: u64,
    indexed_block_number: u64,
    now_millis: u64,
) -> (r: CkbReadiness)
    ensures
        evaluated(
            r,
            tip_block_number,
            tip_timestamp_millis,
            indexed_block_number,
            now_millis,
            CKB_READINESS_MAX_INDEXER_LAG,
        ),
{
    evaluate_ckb_readiness_with_lag_tolerance(
        tip_block_number,
        tip_timestamp_millis,
        indexed_block_number,
        now_millis,
        CKB_READINESS_MAX_INDEXER_LAG,
    )
}

/// Readiness of a backend with the given tip, tip timestamp, fully indexed
/// height and current time, accepting an indexer lag of at most
/// `max_acceptable_lag` blocks.
pub fn evaluate_ckb_readiness_with_lag_tolerance(
    tip_block_number: u64,
    tip_timestamp_millis: u64,
    indexed_block_number: u64,
    now_millis: u64,
    max_acceptable_lag: u64,
) -> (r: CkbReadiness)
    ensures
        evaluated(
            r,
            tip_block_number,
            tip_timestamp_millis,
            indexed_block_number,
            now_millis,
            max_acceptable_lag,
        ),
{
    let lag = if tip_block_number >= indexed_block_number {
        tip_block_number - indexed_block_number
    } else {
        0
    };
    let tip_is_current = tip_block_number > 0 && abs_diff_u64(now_millis, tip_timestamp_millis)
        <= CKB_READINESS_MAX_TIP_AGE_MILLIS;
    let reason = if !tip_is_current {
        Some(owned("CKB chain tip is not current"))
    } else if lag > max_acceptable_lag {
        let mut m = owned("CKB indexer is ");
        push_decimal(&mut m, lag);
        push_str(&mut m, " block(s) behind the chain tip; maximum acceptable lag is ");
        push_decimal(&mut m, max_acceptable_lag);
        Some(m)
    } else {
        None
    };
    CkbReadiness {
        ready: reason.is_none(),
        mode: ckb_readiness_mode(),
        tip_block_number: Some(tip_block_number),
        indexed_block_number: Some(indexed_block_number),
        lag: Some(lag),
        max_acceptable_lag,
        wait_estimate: None,
        reason,
    }
}

/// `ceil(a / b)` for `b > 0`.
pub open spec fn div_ceil(a: nat, b: nat) -> nat {
    if a % b == 0 { a / b } else { a / b + 1 }
}

/// `min(a * b, u64::MAX)`.
pub open spec fn saturating_mul(a: nat, b: nat) -> nat {
    if a * b <= u64::MAX { a * b } else { u64::MAX as nat }
}

/// `min(a + b, u64::MAX)`.
pub open spec fn saturating_add(a: nat, b: nat) -> nat {
    if a + b <= u64::MAX { a + b } else { u64::MAX as nat }
}

/// `v` limited to `[lo, hi]`.
pub open spec fn clamp(v: nat, lo: nat, hi: nat) -> nat {
    if v < lo { lo } else if v > hi { hi } else { v }
}

/// The conservative protocol-based estimate used before any indexing speed
/// has been measured: one retry interval up to one peer-request timeout per
/// filter batch still to scan, the upper end clamped to between one and
/// thirty timeouts, and at least two timeouts once progress has stalled.
pub open spec fn protocol_estimate(lag: nat, stalled: bool) -> (nat, nat) {
    let batches = if div_ceil(lag, CKB_FILTER_BATCH_SIZE as nat) >= 1 {
        div_ceil(lag, CKB_FILTER_BATCH_SIZE as nat)
    } else {
        1
    };
    let upper = clamp(
        saturating_mul(batches, CKB_PEER_REQUEST_TIMEOUT_SECONDS as nat),
        CKB_PEER_REQUEST_TIMEOUT_SECONDS as nat,
        (30 * CKB_PEER_REQUEST_TIMEOUT_SECONDS) as nat,
    );
    let floor: nat = if stalled { (2 * CKB_PEER_REQUEST_TIMEOUT_SECONDS) as nat } else { 0 };
    (saturating_mul(batches, CKB_READINESS_RETRY_SECONDS as nat), if upper >= floor { upper } else { floor })
}

fn saturating_mul_u64(a: u64, b: u64) -> (r: u64)
    ensures
        r == saturating_mul(a as nat, b as nat),
{
    a.checked_mul(b).unwrap_or(u64::MAX)
}

/// The estimate made from the protocol's batch size and timeouts alone.
pub fn protocol_wait_estimate(lag: u64, stalled: bool) -> (e: CkbWaitEstimate)
    ensures
        (e.lower_seconds as nat, e.upper_seconds as nat) == protocol_estimate(lag as nat, stalled),
        e.retry_after_seconds == CKB_READINESS_RETRY_SECONDS,
        e.confidence@ == (if stalled { "stalled"@ } else { "low"@ }),
{
    let whole = lag / CKB_FILTER_BATCH_SIZE;
    let ceil = if lag % CKB_FILTER_BATCH_SIZE == 0 { whole } else { whole + 1 };
    let batches = if ceil >= 1 { ceil } else { 1 };
    let scaled = saturating_mul_u64(batches, CKB_PEER_REQUEST_TIMEOUT_SECONDS);
    let clamped = if scaled < CKB_PEER_REQUEST_TIMEOUT_SECONDS {
        CKB_PEER_REQUEST_TIMEOUT_SECONDS
    } else if scaled > 30 * CKB_PEER_REQUEST_TIMEOUT_SECONDS {
        30 * CKB_PEER_REQUEST_TIMEOUT_SECONDS
    } else {
        scaled
    };
    let floor = if stalled { 2 * CKB_PEER_REQUEST_TIMEOUT_SECONDS } else { 0 };
    CkbWaitEstimate {
        lower_seconds: saturating_mul_u64(batches, CKB_READINESS_RETRY_SECONDS),
        upper_seconds: if clamped >= floor { clamped } else { floor },
        retry_after_seconds: CKB_READINESS_RETRY_SECONDS,
        confidence: if stalled { "stalled" } else { "low" },
    }
}

/// The estimate made from a measured indexing speed, where `expected` is the
/// number of seconds the remaining lag takes at that speed (at least one):
/// from half of it (at least one second) to twice it plus one retry interval.
pub fn measured_wait_estimate(expected: u64) -> (e: CkbWaitEstimate)
    requires
        expected >= 1,
    ensures
        (e.lower_seconds as nat, e.upper_seconds as nat) == measured_estimate(expected as nat),
        e.retry_after_seconds == CKB_READINESS_RETRY_SECONDS,
        e.confidence@ == "measured"@,
{
    let doubled = saturating_mul_u64(expected, 2);
    let upper = doubled.checked_add(CKB_READINESS_RETRY_SECONDS).unwrap_or(u64::MAX);
    CkbWaitEstimate {
        lower_seconds: if expected / 2 >= 1 { expected / 2 } else { 1 },
        upper_seconds: upper,
        retry_after_seconds: CKB_READINESS_RETRY_SECONDS,
        confidence: "measured",
    }
}

/// How long an index may go without progress before it counts as stalled.
pub const CKB_SYNC_STALL_THRESHOLD_NANOS: u64 = 60_000_000_000;

/// Samples further apart than this start the measurement afresh.
pub const CKB_SYNC_SAMPLE_RESET_THRESHOLD_NANOS: u64 = 120_000_000_000;

/// Progress is only measured over at least this much time.
pub const CKB_SYNC_MIN_SAMPLE_NANOS: u64 = 500_000_000;

/// The timing the wait estimator keeps between readiness observations, in
/// nanoseconds on a clock that never runs backwards. The smoothed indexing
/// speed itself is kept by the caller.
#[derive(Clone, Copy, Debug)]
pub struct CkbSyncTiming {
    /// When the last sample was taken and the indexed height it saw.
    pub last_sample: Option<(u64, u64)>,
    /// Since when the index has been lagging.
    pub lag_started_at: Option<u64>,
    /// When the index last advanced over a measured interval.
    pub last_progress_at: Option<u64>,
}

/// What an observation does to the smoothed indexing speed.
#[derive(Clone, Copy, Debug, PartialEq, Eq, Structural)]
pub enum RateUpdate {
    /// Keep the speed as it is.
    Keep,
    /// Forget the speed.
    Forget,
    /// Fold in a sample of `blocks` indexed over `elapsed_nanos`.
    Sample { blocks: u64, elapsed_nanos: u64 },
}

/// Whether an observation calls for a wait estimate, and from what.
#[derive(Clone, Copy, Debug, PartialEq, Eq, Structural)]
pub enum SyncStep {
    /// The index is unavailable or caught up: no estimate.
    NoEstimate,
    /// The index lags by `lag` blocks; `progress_is_recent` says whether it
    /// advanced within the stall threshold, `stalled` whether it has lagged
    /// for at least that long.
    Estimate { lag: u64, progress_is_recent: bool, stalled: bool },
}

/// The outcome of one readiness observation.
#[derive(Clone, Copy, Debug)]
pub struct SyncObservation {
    pub rate: RateUpdate,
    pub step: SyncStep,
}

/// `a - b`, or zero when `b > a`, on the estimator's clock.
pub open spec fn since(now: u64, then: u64) -> u64 {
    if now >= then { (now - then) as u64 } else { 0 }
}

/// A readiness from which no progress can be measured: its tip is stale or
/// its heights are unknown.
pub open spec fn sync_unavailable(r: CkbReadiness) -> bool {
    ||| (r.reason matches Some(m) && m@ == "CKB chain tip is not current"@)
    ||| r.indexed_block_number is None
    ||| r.lag is None
}

/// The timing after sampling height `indexed` at `now`, and what happens to
/// the speed: a height that went backwards or a gap longer than the reset
/// threshold starts over; an advance over at least the minimum interval is a
/// speed sample and counts as progress.
pub open spec fn after_sample(t: CkbSyncTiming, indexed: u64, now: u64) -> (CkbSyncTiming, RateUpdate) {
    match t.last_sample {
        None => (CkbSyncTiming { last_sample: Some((now, indexed)), ..t }, RateUpdate::Keep),
        Some((at, last)) => {
            let elapsed = since(now, at);
            if indexed < last || elapsed > CKB_SYNC_SAMPLE_RESET_THRESHOLD_NANOS {
                (
                    CkbSyncTiming {
                        last_sample: Some((now, indexed)),
                        lag_started_at: Some(now),
                        last_progress_at: None,
                    },
                    RateUpdate::Forget,
                )
            } else if indexed > last && elapsed >= CKB_SYNC_MIN_SAMPLE_NANOS {
                (
                    CkbSyncTiming {
                        last_sample: Some((now, indexed)),
                        lag_started_at: t.lag_started_at,
                        last_progress_at: Some(now),
                    },
                    RateUpdate::Sample { blocks: (indexed - last) as u64, elapsed_nanos: elapsed },
                )
            } else {
                (CkbSyncTiming { last_sample: Some((now, indexed)), ..t }, RateUpdate::Keep)
            }
        },
    }
}

/// The timing, speed update and step after observing `r` at `now`.
pub open spec fn sync_observe(t: CkbSyncTiming, r: CkbReadiness, now: u64) -> (CkbSyncTiming, RateUpdate, SyncStep) {
    if sync_unavailable(r) {
        (
            CkbSyncTiming { last_sample: None, lag_started_at: None, last_progress_at: None },
            RateUpdate::Forget,
            SyncStep::NoEstimate,
        )
    } else {
        let lag = r.lag.unwrap();
        let (s, rate) = after_sample(t, r.indexed_block_number.unwrap(), now);
        if r.ready || lag == 0 {
            (CkbSyncTiming { lag_started_at: None, ..s }, rate, SyncStep::NoEstimate)
        } else {
            let started = match s.lag_started_at {
                Some(x) => x,
                None => now,
            };
            let recent = match s.last_progress_at {
                Some(p) => since(now, p) < CKB_SYNC_STALL_THRESHOLD_NANOS,
                None => false,
            };
            (
                CkbSyncTiming { lag_started_at: Some(started), ..s },
                rate,
                SyncStep::Estimate {
                    lag,
                    progress_is_recent: recent,
                    stalled: since(now, started) >= CKB_SYNC_STALL_THRESHOLD_NANOS,
                },
            )
        }
    }
}

fn since_u64(now: u64, then: u64) -> (r: u64)
    ensures
        r == since(now, then),
{
    if now >= then { now - then } else { 0 }
}

impl CkbSyncTiming {
    /// Timing with no sample yet.
    pub fn new() -> (t: Self)
        ensures
            t.last_sample is None,
            t.lag_started_at is None,
            t.last_progress_at is None,
    {
        CkbSyncTiming { last_sample: None, lag_started_at: None, last_progress_at: None }
    }

    /// Records a readiness observation taken at `now`, and says what it does
    /// to the smoothed speed and whether a wait estimate is due.
    pub fn observe(&mut self, readiness: &CkbReadiness, now: u64) -> (o: SyncObservation)
        ensures
            (*final(self), o.rate, o.step) == sync_observe(*old(self), *readiness, now),
    {
        let stale = match &readiness.reason {
            Some(m) => crate::text::str_eq(m.as_str(), "CKB chain tip is not current"),
            None => false,
        };
        let (indexed, lag) = match (readiness.indexed_block_number, readiness.lag) {
            (Some(i), Some(l)) => (i, l),
            _ => {
                *self = CkbSyncTiming::new();
                return SyncObservation { rate: RateUpdate::Forget, step: SyncStep::NoEstimate };
            },
        };
        if stale {
            *self = CkbSyncTiming::new();
            return SyncObservation { rate: RateUpdate::Forget, step: SyncStep::NoEstimate };
        }
        let mut rate = RateUpdate::Keep;
        match self.last_sample {
            Some((at, last)) => {
                let elapsed = since_u64(now, at);
                if indexed < last || elapsed > CKB_SYNC_SAMPLE_RESET_THRESHOLD_NANOS {
                    rate = RateUpdate::Forget;
                    self.last_progress_at = None;
                    self.lag_started_at = Some(now);
                } else if indexed > last && elapsed >= CKB_SYNC_MIN_SAMPLE_NANOS {
                    rate = RateUpdate::Sample { blocks: indexed - last, elapsed_nanos: elapsed };
                    self.last_progress_at = Some(now);
                }
            },
            None => {},
        }
        self.last_sample = Some((now, indexed));
        if readiness.ready || lag == 0 {
            self.lag_started_at = None;
            return SyncObservation { rate, step: SyncStep::NoEstimate };
        }
        let started = match self.lag_started_at {
            Some(x) => x,
            None => now,
        };
        self.lag_started_at = Some(started);
        let recent = match self.last_progress_at {
            Some(p) => since_u64(now, p) < CKB_SYNC_STALL_THRESHOLD_NANOS,
            None => false,
        };
        SyncObservation {
            rate,
            step: SyncStep::Estimate {
                lag,
                progress_is_recent: recent,
                stalled: since_u64(now, started) >= CKB_SYNC_STALL_THRESHOLD_NANOS,
            },
        }
    }
}

/// The wait estimate for an index lagging by `lag` blocks. When progress is
/// recent and a positive speed is known, `expected_at_rate` holds the whole
/// seconds the lag takes at that speed, rounded up, and the estimate is the
/// measured one (from at least one second); otherwise it is the protocol
/// estimate, stalled or not.
pub fn wait_estimate(lag: u64, progress_is_recent: bool, stalled: bool, expected_at_rate: Option<u64>) -> (e:
    CkbWaitEstimate)
    ensures
        (progress_is_recent && expected_at_rate is Some) ==> {
            let x = expected_at_rate.unwrap();
            let expected: u64 = if x >= 1 { x } else { 1 };
            &&& (e.lower_seconds as nat, e.upper_seconds as nat) == measured_estimate(expected as nat)
            &&& e.retry_after_seconds == CKB_READINESS_RETRY_SECONDS
            &&& e.confidence@ == "measured"@
        },
        !(progress_is_recent && expected_at_rate is Some) ==> {
            &&& (e.lower_seconds as nat, e.upper_seconds as nat) == protocol_estimate(lag as nat, stalled)
            &&& e.retry_after_seconds == CKB_READINESS_RETRY_SECONDS
            &&& e.confidence@ == (if stalled { "stalled"@ } else { "low"@ })
        },
{
    match expected_at_rate {
        Some(x) => {
            if progress_is_recent {
                return measured_wait_estimate(if x >= 1 { x } else { 1 });
            }
        },
        None => {},
    }
    protocol_wait_estimate(lag, stalled)
}

/// The lower and upper seconds of the estimate made from a measured speed,
/// where the lag takes `expected` seconds at that speed: from half of it
/// (at least one second) to twice it plus one retry interval.
pub open spec fn measured_estimate(expected: nat) -> (nat, nat) {
    (
        if expected / 2 >= 1 { expected / 2 } else { 1 },
        saturating_add(saturating_mul(expected, 2), CKB_READINESS_RETRY_SECONDS as nat),
    )
}

/// A wait estimate is due exactly while the index lags: no estimate comes
/// from a stale tip, unknown heights, a ready backend or a zero lag, and one
/// comes from every other observation.
pub proof fn lemma_estimate_is_due_exactly_while_lagging(t: CkbSyncTiming, r: CkbReadiness, now: u64)
    ensures
        (sync_observe(t, r, now).2 is NoEstimate) <==> (sync_unavailable(r) || r.ready || r.lag
            == Some(0u64)),
{
}

/// A measured estimate is an ordered range of at least one second.
pub proof fn lemma_measured_estimate_is_ordered(expected: nat)
    requires
        1 <= expected <= u64::MAX,
    ensures
        1 <= measured_estimate(expected).0 <= measured_estimate(expected).1,
{
    assert(expected / 2 <= expected) by (nonlinear_arith)
        requires
            expected >= 1,
    ;
}

/// A protocol estimate is an ordered range of at least one retry interval
/// for every lag of up to six hundred filter batches; beyond that its lower
/// end, three seconds per batch, passes the thirty-timeout ceiling of the
/// upper end.
pub proof fn lemma_protocol_estimate_is_ordered(lag: nat, stalled: bool)
    requires
        lag <= 600_000,
    ensures
        CKB_READINESS_RETRY_SECONDS <= protocol_estimate(lag, stalled).0 <= protocol_estimate(lag, stalled).1,
{
    let b = div_ceil(lag, CKB_FILTER_BATCH_SIZE as nat);
    assert(b <= 600) by (nonlinear_arith)
        requires
            lag <= 600_000,
            b == (if lag % 1000 == 0 { lag / 1000 } else { lag / 1000 + 1 }),
    ;
}

/// Admits a call that needs a ready CKB backend; otherwise refuses it as not
/// ready, with `detail` describing the readiness found.
pub fn readiness_gate(ready: bool, detail: &str) -> (r: Result<(), FfiError>)
    ensures
        ready ==> r is Ok,
        !ready ==> (r matches Err(e) && e.status == FiberFfiStatus::NotReady && e.message@ == sanitized(
            "CKB backend is not ready: "@ + detail@,
        )),
{
    if ready {
        return Ok(());
    }
    let mut m = owned("CKB backend is not ready: ");
    push_str(&mut m, detail);
    Err(ffi_error(FiberFfiStatus::NotReady, m.as_str()))
}

/// `shannons` as CKB with exactly eight decimal places.
pub open spec fn ckb_capacity_text(shannons: nat) -> Seq<char> {
    decimal(shannons / 100_000_000) + "."@ + fixed_digits(shannons % 100_000_000, 8)
}

/// The amount a capacity text names: the digits before its final dot and
/// eight digits as whole CKB, and those eight digits as shannons.
pub open spec fn capacity_text_value(s: Seq<char>) -> nat {
    digits_value(s.take(s.len() - 9)) * 100_000_000 + digits_value(s.skip(s.len() - 8))
}

proof fn lemma_capacity_text_parts(shannons: nat)
    ensures
        ({
            let s = ckb_capacity_text(shannons);
            &&& s.len() >= 10
            &&& s[s.len() - 9] == '.'
            &&& all_digits(s.take(s.len() - 9))
            &&& all_digits(s.skip(s.len() - 8))
            &&& capacity_text_value(s) == shannons
        }),
{
    reveal_strlit(".");
    let w = decimal(shannons / 100_000_000);
    let f = fixed_digits(shannons % 100_000_000, 8);
    assert(pow10(8) == 100_000_000) by {
        reveal_with_fuel(pow10, 9);
    }
    lemma_decimal_value(shannons / 100_000_000);
    lemma_fixed_digits_value(shannons % 100_000_000, 8);
    crate::text::lemma_decimal_len(shannons / 100_000_000);
    let s = ckb_capacity_text(shannons);
    assert(s =~= w + "."@ + f);
    assert(s.take(s.len() - 9) =~= w);
    assert(s.skip(s.len() - 8) =~= f);
}

/// Formatting a capacity loses nothing: the text is a whole part of
/// digits, a dot and exactly eight digits; reading it back gives the amount;
/// so two amounts with the same text are the same amount.
pub proof fn lemma_ckb_capacity_text_round_trip(a: nat, b: nat)
    ensures
        ({
            let s = ckb_capacity_text(a);
            &&& s.len() >= 10
            &&& s[s.len() - 9] == '.'
            &&& all_digits(s.take(s.len() - 9))
            &&& all_digits(s.skip(s.len() - 8))
            &&& capacity_text_value(s) == a
        }),
        ckb_capacity_text(a) == ckb_capacity_text(b) ==> a == b,
{
    lemma_capacity_text_parts(a);
    lemma_capacity_text_parts(b);
}

/// Formats a shannon amount as CKB with eight decimal places,
/// e.g. `50000000274` as `500.00000274`.
pub fn format_ckb_capacity(shannons: u64) -> (s: String)
    ensures
        s@ == ckb_capacity_text(shannons as nat),
{
    let mut s = String::new();
    push_decimal(&mut s, shannons / 100_000_000);
    push_str(&mut s, ".");
    push_fixed_digits(&mut s, shannons % 100_000_000, 8);
    proof {
        assert(s@ =~= ckb_capacity_text(shannons as nat));
    }
    s
}

} // verus!
