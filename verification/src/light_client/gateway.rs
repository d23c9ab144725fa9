//! Decisions the embedded RPC gateway takes while answering Fiber: which
//! subscription proves a cell live, when a script's index covers a cell,
//! how a producing transaction is resolved, how a transaction status is
//! reported, and which inputs and validators a submission may carry.
use vstd::prelude::*;

use crate::ckb_script::{script_view, Script};
use crate::light_client::reservations::{out_point_view, OutPoint};
use crate::light_client::rpc_rules::{
    invalid_params, not_ready, rpc_error_view, unsupported, IndexedScriptType, RpcError,
    RpcErrorCode, ScriptStatus, ScriptType, NOT_READY_ERROR, UNSUPPORTED_ERROR,
};
use crate::light_client::script_registry::{service_type_of, OutputScripts};
use crate::light_client::runtime_rules::{first_indexed_block, first_indexed_block_of};
use crate::text::{debug_quote, debug_quoted, owned, push_str};

verus! {

/// Whether a cell with lock `lock` and type `type_` is one a subscription
/// to `script` as `script_type` finds.
pub open spec fn cell_matches(lock: Script, type_: Option<Script>, script: Script, script_type: ScriptType) -> bool {
    match script_type {
        ScriptType::Lock => script_view(lock) == script_view(script),
        ScriptType::Type => type_ matches Some(t) && script_view(t) == script_view(script),
    }
}

/// Whether a cell output matches an exact search for `script`.
pub fn cell_matches_script(lock: &Script, type_: &Option<Script>, script: &Script, script_type: ScriptType) -> (r: bool)
    ensures
        r == cell_matches(*lock, *type_, *script, script_type),
{
    match script_type {
        ScriptType::Lock => lock.same_as(script),
        ScriptType::Type => match type_ {
            Some(t) => t.same_as(script),
            None => false,
        },
    }
}

/// Whether `script` is subscribed as `script_type`.
pub open spec fn is_registered(statuses: Seq<ScriptStatus>, script: Script, script_type: ScriptType) -> bool {
    exists|i: int|
        0 <= i < statuses.len() && script_view(#[trigger] statuses[i].script) == script_view(script)
            && statuses[i].script_type == script_type
}

/// Whether `script` is subscribed as `script_type` and scanned to `target`.
pub open spec fn is_scanned_to(
    statuses: Seq<ScriptStatus>,
    script: Script,
    script_type: ScriptType,
    target: u64,
) -> bool {
    exists|i: int|
        0 <= i < statuses.len() && script_view(#[trigger] statuses[i].script) == script_view(script)
            && statuses[i].script_type == script_type && statuses[i].block_number >= target
}

/// Whether a script is in the subscription set.
pub fn script_registered(statuses: &Vec<ScriptStatus>, script: &Script, script_type: ScriptType) -> (r: bool)
    ensures
        r == is_registered(statuses@, *script, script_type),
{
    script_scanned_to(statuses, script, script_type, 0)
}

/// Whether a subscribed script has been scanned up to block `target`.
pub fn script_scanned_to(statuses: &Vec<ScriptStatus>, script: &Script, script_type: ScriptType, target: u64) -> (r: bool)
    ensures
        r == is_scanned_to(statuses@, *script, script_type, target),
        target == 0 ==> r == is_registered(statuses@, *script, script_type),
{
    let mut i: usize = 0;
    while i < statuses.len()
        invariant
            i <= statuses@.len(),
            forall|j: int|
                0 <= j < i ==> !(script_view(#[trigger] statuses@[j].script) == script_view(*script)
                    && statuses@[j].script_type == script_type && statuses@[j].block_number >= target),
        decreases statuses@.len() - i,
    {
        let s = &statuses[i];
        if s.script.same_as(script) && s.script_type == script_type && s.block_number >= target {
            return true;
        }
        i = i + 1;
    }
    false
}

/// The lowest scan height of the subscriptions, if any.
pub open spec fn slowest_scan(statuses: Seq<ScriptStatus>) -> Option<u64>
    decreases statuses.len(),
{
    if statuses.len() == 0 {
        None
    } else {
        match slowest_scan(statuses.drop_last()) {
            None => Some(statuses.last().block_number),
            Some(m) => Some(if statuses.last().block_number < m { statuses.last().block_number } else { m }),
        }
    }
}

/// Whether every subscription is scanned to `target`: `Ok(None)` when it is,
/// `Ok(Some(h))` with the slowest height `h` while one is behind, and an
/// error when nothing is subscribed (prefix queries need subscriptions).
pub fn all_scripts_scanned(statuses: &Vec<ScriptStatus>, target: u64) -> (r: Result<Option<u64>, RpcError>)
    ensures
        match slowest_scan(statuses@) {
            None => r matches Err(e) && rpc_error_view(e) == (
                RpcErrorCode::ServerError(NOT_READY_ERROR),
                "prefix queries require previously registered complete scripts"@,
                None::<Seq<char>>,
            ),
            Some(h) => r == Ok::<Option<u64>, RpcError>(if h >= target { None } else { Some(h) }),
        },
{
    let mut slowest: Option<u64> = None;
    let mut i: usize = 0;
    while i < statuses.len()
        invariant
            i <= statuses@.len(),
            slowest == slowest_scan(statuses@.take(i as int)),
        decreases statuses@.len() - i,
    {
        proof {
            assert(statuses@.take(i + 1).drop_last() =~= statuses@.take(i as int));
        }
        let b = statuses[i].block_number;
        slowest = match slowest {
            None => Some(b),
            Some(m) => Some(if b < m { b } else { m }),
        };
        i = i + 1;
    }
    proof {
        assert(statuses@.take(statuses@.len() as int) =~= statuses@);
    }
    match slowest {
        None => Err(not_ready(owned("prefix queries require previously registered complete scripts"))),
        Some(h) => Ok(if h >= target { None } else { Some(h) }),
    }
}

/// How the liveness of a committed cell is proved.
#[derive(Clone, Copy, Debug, PartialEq, Eq, Structural)]
pub enum LivenessRoute {
    /// Scan the subscription of the cell's lock script.
    ByLock,
    /// Scan the subscription of the cell's type script.
    ByType,
    /// Ask the configured external RPC.
    ByPeerFundingRpc,
    /// Neither script is subscribed and no other source may be asked.
    Unprovable,
}

/// The route for a cell: its lock subscription if there is one, else its
/// type subscription, else the external RPC when the caller allows it and
/// one is configured.
pub open spec fn liveness_route_of(
    lock_registered: bool,
    type_registered: bool,
    allow_peer_funding_rpc: bool,
    peer_funding_rpc_configured: bool,
) -> LivenessRoute {
    if !lock_registered && type_registered {
        LivenessRoute::ByType
    } else if lock_registered {
        LivenessRoute::ByLock
    } else if allow_peer_funding_rpc && peer_funding_rpc_configured {
        LivenessRoute::ByPeerFundingRpc
    } else {
        LivenessRoute::Unprovable
    }
}

/// Chooses how to prove a committed cell live.
pub fn liveness_route(
    lock_registered: bool,
    type_registered: bool,
    allow_peer_funding_rpc: bool,
    peer_funding_rpc_configured: bool,
) -> (r: LivenessRoute)
    ensures
        r == liveness_route_of(lock_registered, type_registered, allow_peer_funding_rpc, peer_funding_rpc_configured),
{
    if !lock_registered && type_registered {
        LivenessRoute::ByType
    } else if lock_registered {
        LivenessRoute::ByLock
    } else if allow_peer_funding_rpc && peer_funding_rpc_configured {
        LivenessRoute::ByPeerFundingRpc
    } else {
        LivenessRoute::Unprovable
    }
}

/// Whether a script's index covers a cell created at `creation_block`,
/// from the start recorded for it (`known_start`) and otherwise from its
/// subscription's scan height (`status_block`); in the second case the
/// start it implies is to be recorded.
pub open spec fn coverage_of(known_start: Option<u64>, status_block: Option<u64>, creation_block: u64) -> (bool, Option<u64>) {
    if known_start matches Some(s) && s <= creation_block {
        (true, None)
    } else {
        match status_block {
            None => (false, None),
            Some(b) => if b >= creation_block {
                (false, None)
            } else {
                (true, Some(first_indexed_block(b as nat) as u64))
            },
        }
    }
}

/// Decides whether an index covers the creation of a cell.
pub fn index_covers_creation(known_start: Option<u64>, status_block: Option<u64>, creation_block: u64) -> (r: (
    bool,
    Option<u64>,
))
    ensures
        r == coverage_of(known_start, status_block, creation_block),
{
    match known_start {
        Some(s) => {
            if s <= creation_block {
                return (true, None);
            }
        },
        None => {},
    }
    match status_block {
        None => (false, None),
        Some(b) => {
            if b >= creation_block {
                (false, None)
            } else {
                (true, Some(first_indexed_block_of(b)))
            }
        },
    }
}

/// The status of a transaction as the Light Client reports it.
#[derive(Clone, Copy, Debug, PartialEq, Eq, Structural)]
pub enum TxStatus {
    Pending,
    Committed,
    Unknown,
}

/// What resolving an out point does with the status of its producing
/// transaction.
#[derive(Clone, Copy, Debug, PartialEq, Eq, Structural)]
pub enum ResolveStep {
    /// Use the output as it is.
    Use,
    /// Prove the output live first.
    ProveLive,
    /// Use the output on the strength of a pinned cell dep.
    UsePinned,
    /// Refuse: the producing transaction is unknown.
    Refuse,
}

/// A pending producer is used as is; a committed one is proved live unless
/// it is a pinned cell dep; an unknown one is refused.
pub open spec fn resolve_step_of(status: TxStatus, verify_liveness: bool) -> ResolveStep {
    match status {
        TxStatus::Pending => ResolveStep::Use,
        TxStatus::Committed => if verify_liveness { ResolveStep::ProveLive } else { ResolveStep::UsePinned },
        TxStatus::Unknown => ResolveStep::Refuse,
    }
}

/// Decides how an out point is resolved.
pub fn resolve_step(status: TxStatus, verify_liveness: bool) -> (r: ResolveStep)
    ensures
        r == resolve_step_of(status, verify_liveness),
{
    match status {
        TxStatus::Pending => ResolveStep::Use,
        TxStatus::Committed => if verify_liveness { ResolveStep::ProveLive } else { ResolveStep::UsePinned },
        TxStatus::Unknown => ResolveStep::Refuse,
    }
}

/// How a transaction is written in a `get_transaction` answer.
#[derive(Clone, Copy, Debug, PartialEq, Eq, Structural)]
pub enum TxEncoding {
    Null,
    Bytes,
    Json,
}

/// The reported status of a transaction and whether its body and block are
/// reported: a caller asking only for committed transactions sees any other
/// as unknown, without body or block.
pub open spec fn reported_status(status: TxStatus, only_committed: bool) -> (Seq<char>, bool) {
    if only_committed && status != TxStatus::Committed {
        ("unknown"@, false)
    } else {
        (
            match status {
                TxStatus::Pending => "pending"@,
                TxStatus::Committed => "committed"@,
                TxStatus::Unknown => "unknown"@,
            },
            true,
        )
    }
}

/// The status text of a `get_transaction` answer and whether the body and
/// block hash are kept.
pub fn report_status(status: TxStatus, only_committed: bool) -> (r: (&'static str, bool))
    ensures
        (r.0@, r.1) == reported_status(status, only_committed),
{
    if only_committed && status != TxStatus::Committed {
        ("unknown", false)
    } else {
        (
            match status {
                TxStatus::Pending => "pending",
                TxStatus::Committed => "committed",
                TxStatus::Unknown => "unknown",
            },
            true,
        )
    }
}

/// The encoding of a reported transaction body: none without a body or at
/// verbosity 1, its molecule bytes at 0, its JSON at 2.
pub open spec fn encoding_of(verbosity: u32, has_body: bool) -> TxEncoding {
    if !has_body || verbosity == 1 {
        TxEncoding::Null
    } else if verbosity == 0 {
        TxEncoding::Bytes
    } else if verbosity == 2 {
        TxEncoding::Json
    } else {
        TxEncoding::Null
    }
}

/// Chooses how the body of a reported transaction is written.
pub fn transaction_encoding(verbosity: u32, has_body: bool) -> (r: TxEncoding)
    ensures
        r == encoding_of(verbosity, has_body),
{
    if !has_body || verbosity == 1 {
        TxEncoding::Null
    } else if verbosity == 0 {
        TxEncoding::Bytes
    } else if verbosity == 2 {
        TxEncoding::Json
    } else {
        TxEncoding::Null
    }
}

/// Checks a verbosity parameter: 0, 1 and 2 are accepted.
pub fn check_verbosity(verbosity: u32) -> (r: Result<(), RpcError>)
    ensures
        verbosity <= 2 ==> r is Ok,
        verbosity > 2 ==> (r matches Err(e) && rpc_error_view(e) == (
            RpcErrorCode::InvalidParams,
            "verbosity must be 0, 1, or 2"@,
            None::<Seq<char>>,
        )),
{
    if verbosity > 2 {
        Err(invalid_params(owned("verbosity must be 0, 1, or 2")))
    } else {
        Ok(())
    }
}

/// Checks the optional outputs validator of a submission: only
/// `passthrough` is supported.
pub fn check_outputs_validator(outputs_validator: Option<&str>) -> (r: Result<(), RpcError>)
    ensures
        match outputs_validator {
            None => r is Ok,
            Some(v) => if v@ == "passthrough"@ {
                r is Ok
            } else {
                r matches Err(e) && rpc_error_view(e) == (
                    RpcErrorCode::ServerError(UNSUPPORTED_ERROR),
                    "outputs_validator "@ + debug_quoted(v@) + " is not supported by the embedded Light Client"@,
                    None::<Seq<char>>,
                )
            },
        },
{
    match outputs_validator {
        None => Ok(()),
        Some(v) => {
            if crate::text::str_eq(v, "passthrough") {
                Ok(())
            } else {
                let mut m = owned("outputs_validator ");
                let q = debug_quote(v);
                push_str(&mut m, q.as_str());
                push_str(&mut m, " is not supported by the embedded Light Client");
                Err(unsupported(m))
            }
        },
    }
}

/// Whether input `j` repeats an earlier input.
pub open spec fn repeats_earlier(inputs: Seq<OutPoint>, j: int) -> bool {
    exists|i: int| 0 <= i < j && out_point_view(#[trigger] inputs[i]) == out_point_view(inputs[j])
}

/// Finds the first input that repeats an earlier one.
pub fn first_duplicate_input(inputs: &Vec<OutPoint>) -> (r: Option<usize>)
    ensures
        match r {
            Some(j) => j < inputs@.len() && repeats_earlier(inputs@, j as int) && forall|k: int|
                0 <= k < j ==> !repeats_earlier(inputs@, k),
            None => forall|k: int| 0 <= k < inputs@.len() ==> !repeats_earlier(inputs@, k),
        },
{
    let mut j: usize = 0;
    while j < inputs.len()
        invariant
            j <= inputs@.len(),
            forall|k: int| 0 <= k < j ==> !repeats_earlier(inputs@, k),
        decreases inputs@.len() - j,
    {
        let mut i: usize = 0;
        while i < j
            invariant
                i <= j,
                j < inputs@.len(),
                forall|k: int| 0 <= k < j ==> !repeats_earlier(inputs@, k),
                forall|a: int| 0 <= a < i ==> out_point_view(#[trigger] inputs@[a]) != out_point_view(inputs@[j as int]),
            decreases j - i,
        {
            if crate::ckb_script::bytes_eq(&inputs[i].tx_hash, &inputs[j].tx_hash) && inputs[i].index == inputs[j].index {
                proof {
                    assert(out_point_view(inputs@[i as int]) == out_point_view(inputs@[j as int]));
                }
                return Some(j);
            }
            i = i + 1;
        }
        j = j + 1;
    }
    None
}


/// The order timestamps are sorted by.
pub open spec fn timestamp_leq() -> spec_fn(u64, u64) -> bool {
    |a: u64, b: u64| a <= b
}

/// The median block time of a list of timestamps: the middle element once
/// sorted, the upper one of the two middle elements for an even count.
pub open spec fn median_of(timestamps: Seq<u64>) -> u64 {
    timestamps.sort_by(timestamp_leq())[(timestamps.len() / 2) as int]
}

proof fn lemma_timestamp_order_total()
    ensures
        vstd::relations::total_ordering(timestamp_leq()),
{
    let leq = timestamp_leq();
    assert(vstd::relations::reflexive(leq));
    assert(vstd::relations::antisymmetric(leq));
    assert(vstd::relations::transitive(leq));
    assert(vstd::relations::strongly_connected(leq));
}

/// The timestamps in ascending order.
fn sort_timestamps(timestamps: &Vec<u64>) -> (r: Vec<u64>)
    ensures
        r@.to_multiset() == timestamps@.to_multiset(),
        vstd::relations::sorted_by(r@, timestamp_leq()),
{
    let mut sorted: Vec<u64> = Vec::new();
    let mut i: usize = 0;
    proof {
        assert(timestamps@.take(0) =~= sorted@);
    }
    while i < timestamps.len()
        invariant
            i <= timestamps@.len(),
            sorted@.to_multiset() == timestamps@.take(i as int).to_multiset(),
            vstd::relations::sorted_by(sorted@, timestamp_leq()),
        decreases timestamps@.len() - i,
    {
        let x = timestamps[i];
        let mut pos: usize = 0;
        while pos < sorted.len() && sorted[pos] <= x
            invariant
                pos <= sorted@.len(),
                forall|k: int| 0 <= k < pos ==> sorted@[k] <= x,
            decreases sorted@.len() - pos,
        {
            pos = pos + 1;
        }
        let ghost before = sorted@;
        sorted.insert(pos, x);
        proof {
            assert(sorted@ == before.insert(pos as int, x));
            assert(pos < before.len() ==> x < before[pos as int]);
            assert forall|a: int, b: int| 0 <= a < b < sorted@.len() implies #[trigger] (timestamp_leq())(
                sorted@[a],
                sorted@[b],
            ) by {
                if b < pos {
                    assert((timestamp_leq())(before[a], before[b]));
                } else if a < pos && b == pos {
                } else if a < pos {
                    assert((timestamp_leq())(before[a], before[b - 1]));
                } else if a == pos {
                    assert((timestamp_leq())(before[pos as int], before[b - 1]) || b - 1 == pos);
                } else {
                    assert((timestamp_leq())(before[a - 1], before[b - 1]));
                }
            }
            assert(timestamps@.take(i + 1) =~= timestamps@.take(i as int).push(x));
            vstd::seq_lib::to_multiset_build(timestamps@.take(i as int), x);
            vstd::seq_lib::to_multiset_insert(before, pos as int, x);
            assert(sorted@.to_multiset() == timestamps@.take(i + 1).to_multiset());
        }
        i = i + 1;
    }
    proof {
        assert(timestamps@.take(timestamps@.len() as int) =~= timestamps@);
    }
    sorted
}

/// The median of the timestamps of the blocks before a block, as
/// `get_block_median_time` reports it.
pub fn median_timestamp(timestamps: &Vec<u64>) -> (r: u64)
    requires
        timestamps@.len() > 0,
    ensures
        r == median_of(timestamps@),
{
    let sorted = sort_timestamps(timestamps);
    proof {
        lemma_timestamp_order_total();
        timestamps@.lemma_sort_by_ensures(timestamp_leq());
        vstd::seq_lib::lemma_sorted_unique(sorted@, timestamps@.sort_by(timestamp_leq()), timestamp_leq());
        vstd::seq_lib::to_multiset_len(sorted@);
        vstd::seq_lib::to_multiset_len(timestamps@);
    }
    sorted[timestamps.len() / 2]
}


/// The key of a subscription request: the script and the field it matches.
pub open spec fn request_view(r: (Script, IndexedScriptType, u64)) -> (
    (Seq<u8>, crate::ckb_script::ScriptHashType, Seq<u8>),
    IndexedScriptType,
) {
    (script_view(r.0), r.1)
}

/// The keys of a list of requests.
pub open spec fn request_keys(v: Seq<(Script, IndexedScriptType, u64)>) -> Seq<
    ((Seq<u8>, crate::ckb_script::ScriptHashType, Seq<u8>), IndexedScriptType),
> {
    Seq::new(v.len(), |i: int| request_view(v[i]))
}

/// The scripts of a list of outputs in order: each lock, then its type
/// script if it has one.
pub open spec fn output_candidates(outputs: Seq<OutputScripts>) -> Seq<(Script, IndexedScriptType)>
    decreases outputs.len(),
{
    if outputs.len() == 0 {
        Seq::empty()
    } else {
        let prev = output_candidates(outputs.drop_last()).push((outputs.last().lock, IndexedScriptType::Lock));
        match outputs.last().type_ {
            Some(t) => prev.push((t, IndexedScriptType::Type)),
            None => prev,
        }
    }
}

/// The candidates that are neither subscribed already nor listed before,
/// in order.
pub open spec fn new_subscriptions(
    existing: Seq<ScriptStatus>,
    candidates: Seq<(Script, IndexedScriptType)>,
) -> Seq<((Seq<u8>, crate::ckb_script::ScriptHashType, Seq<u8>), IndexedScriptType)>
    decreases candidates.len(),
{
    if candidates.len() == 0 {
        Seq::empty()
    } else {
        let prev = new_subscriptions(existing, candidates.drop_last());
        let c = candidates.last();
        if is_registered(existing, c.0, service_type_of(c.1)) || prev.contains((script_view(c.0), c.1)) {
            prev
        } else {
            prev.push((script_view(c.0), c.1))
        }
    }
}

/// Adds one candidate unless it is subscribed or already added.
fn add_candidate(
    added: &mut Vec<(Script, IndexedScriptType, u64)>,
    existing: &Vec<ScriptStatus>,
    script: &Script,
    t: IndexedScriptType,
    first_required_block: u64,
)
    ensures
        request_keys(final(added)@) == (if is_registered(existing@, *script, service_type_of(t))
            || request_keys(old(added)@).contains((script_view(*script), t)) {
            request_keys(old(added)@)
        } else {
            request_keys(old(added)@).push((script_view(*script), t))
        }),
        forall|i: int| 0 <= i < old(added)@.len() ==> final(added)@[i] == old(added)@[i],
        forall|i: int| old(added)@.len() <= i < final(added)@.len() ==> (#[trigger] final(added)@[i]).2 == first_required_block,
{
    if script_registered(existing, script, t.service_type()) {
        return;
    }
    let mut i: usize = 0;
    while i < added.len()
        invariant
            i <= added@.len(),
            forall|q: int| 0 <= q < i ==> request_keys(added@)[q] != (script_view(*script), t),
        decreases added@.len() - i,
    {
        if added[i].0.same_as(script) && added[i].1 == t {
            proof {
                assert(request_keys(added@)[i as int] == (script_view(*script), t));
            }
            return;
        }
        i = i + 1;
    }
    let ghost before = added@;
    added.push((script.copy(), t, first_required_block));
    proof {
        assert(request_keys(added@) =~= request_keys(before).push((script_view(*script), t)));
    }
}

/// The subscriptions a transaction adds along a tracked chain: every output
/// lock and type script that is not subscribed yet, once each, in output
/// order, each to be indexed from `first_required_block`.
pub fn new_output_subscriptions(
    existing: &Vec<ScriptStatus>,
    outputs: &Vec<OutputScripts>,
    first_required_block: u64,
) -> (r: Vec<(Script, IndexedScriptType, u64)>)
    ensures
        request_keys(r@) == new_subscriptions(existing@, output_candidates(outputs@)),
        forall|i: int| 0 <= i < r@.len() ==> (#[trigger] r@[i]).2 == first_required_block,
{
    let mut added: Vec<(Script, IndexedScriptType, u64)> = Vec::new();
    let mut i: usize = 0;
    proof {
        assert(request_keys(added@) =~= new_subscriptions(existing@, output_candidates(outputs@.take(0))));
    }
    while i < outputs.len()
        invariant
            i <= outputs@.len(),
            request_keys(added@) == new_subscriptions(existing@, output_candidates(outputs@.take(i as int))),
            forall|q: int| 0 <= q < added@.len() ==> (#[trigger] added@[q]).2 == first_required_block,
        decreases outputs@.len() - i,
    {
        let ghost prefix = outputs@.take(i as int);
        let o = &outputs[i];
        proof {
            assert(outputs@.take(i + 1).drop_last() =~= prefix);
            assert(outputs@.take(i + 1).last() == outputs@[i as int]);
        }
        add_candidate(&mut added, existing, &o.lock, IndexedScriptType::Lock, first_required_block);
        proof {
            let c1 = output_candidates(prefix).push((o.lock, IndexedScriptType::Lock));
            assert(c1.drop_last() =~= output_candidates(prefix));
            assert(request_keys(added@) == new_subscriptions(existing@, c1));
        }
        match &o.type_ {
            Some(t) => {
                add_candidate(&mut added, existing, t, IndexedScriptType::Type, first_required_block);
                proof {
                    let c1 = output_candidates(prefix).push((o.lock, IndexedScriptType::Lock));
                    let c2 = c1.push((*t, IndexedScriptType::Type));
                    assert(c2.drop_last() =~= c1);
                    assert(output_candidates(outputs@.take(i + 1)) == c2);
                }
            },
            None => {
                proof {
                    assert(output_candidates(outputs@.take(i + 1)) == output_candidates(prefix).push(
                        (o.lock, IndexedScriptType::Lock),
                    ));
                }
            },
        }
        i = i + 1;
    }
    proof {
        assert(outputs@.take(outputs@.len() as int) =~= outputs@);
    }
    added
}


/// The lowest start listed for `key`, if it is listed.
pub open spec fn lowest_start(
    v: Seq<(Script, IndexedScriptType, u64)>,
    key: ((Seq<u8>, crate::ckb_script::ScriptHashType, Seq<u8>), IndexedScriptType),
) -> Option<u64>
    decreases v.len(),
{
    if v.len() == 0 {
        None
    } else {
        let prev = lowest_start(v.drop_last(), key);
        if request_view(v.last()) == key {
            Some(
                match prev {
                    None => v.last().2,
                    Some(m) => if m <= v.last().2 { m } else { v.last().2 },
                },
            )
        } else {
            prev
        }
    }
}

/// Whether a requested start extends what is known to be indexed for `key`:
/// nothing is known, or it starts lower.
pub open spec fn extends_coverage(
    known: Seq<(Script, IndexedScriptType, u64)>,
    key: ((Seq<u8>, crate::ckb_script::ScriptHashType, Seq<u8>), IndexedScriptType),
    start: u64,
) -> bool {
    match lowest_start(known, key) {
        None => true,
        Some(k) => start < k,
    }
}

/// The lowest start listed in `v` for `script` as `t`.
fn lowest_start_in(v: &Vec<(Script, IndexedScriptType, u64)>, script: &Script, t: IndexedScriptType) -> (r: Option<u64>)
    ensures
        r == lowest_start(v@, (script_view(*script), t)),
{
    let ghost key = (script_view(*script), t);
    let mut r: Option<u64> = None;
    let mut i: usize = 0;
    while i < v.len()
        invariant
            i <= v@.len(),
            key == (script_view(*script), t),
            r == lowest_start(v@.take(i as int), key),
        decreases v@.len() - i,
    {
        proof {
            assert(v@.take(i + 1).drop_last() =~= v@.take(i as int));
        }
        if v[i].0.same_as(script) && v[i].1 == t {
            let s = v[i].2;
            r = Some(
                match r {
                    None => s,
                    Some(m) => if m <= s { m } else { s },
                },
            );
        }
        i = i + 1;
    }
    proof {
        assert(v@.take(v@.len() as int) =~= v@);
    }
    r
}

/// The subscriptions to extend for a batch of coverage requests: one per
/// requested script and field, at the lowest start requested for it, kept
/// only where it starts below what is known to be indexed (`known`).
pub fn coverage_updates(
    known: &Vec<(Script, IndexedScriptType, u64)>,
    requested: &Vec<(Script, IndexedScriptType, u64)>,
) -> (r: Vec<(Script, IndexedScriptType, u64)>)
    ensures
        forall|i: int, j: int| 0 <= i < j < r@.len() ==> request_view(#[trigger] r@[i]) != request_view(#[trigger] r@[j]),
        forall|i: int|
            0 <= i < r@.len() ==> lowest_start(requested@, request_view(#[trigger] r@[i])) == Some(r@[i].2)
                && extends_coverage(known@, request_view(r@[i]), r@[i].2),
        forall|j: int|
            0 <= j < requested@.len() ==> (extends_coverage(
                known@,
                request_view(#[trigger] requested@[j]),
                lowest_start(requested@, request_view(requested@[j])).unwrap(),
            ) ==> request_keys(r@).contains(request_view(requested@[j]))),
{
    let mut merged: Vec<(Script, IndexedScriptType, u64)> = Vec::new();
    let mut i: usize = 0;
    while i < requested.len()
        invariant
            i <= requested@.len(),
            forall|a: int, b: int|
                0 <= a < b < merged@.len() ==> request_view(#[trigger] merged@[a]) != request_view(#[trigger] merged@[b]),
            forall|q: int|
                0 <= q < merged@.len() ==> lowest_start(requested@.take(i as int), request_view(#[trigger] merged@[q]))
                    == Some(merged@[q].2),
            forall|j: int|
                0 <= j < i ==> request_keys(merged@).contains(request_view(#[trigger] requested@[j])),
        decreases requested@.len() - i,
    {
        let e = &requested[i];
        let ghost key = request_view(requested@[i as int]);
        let ghost old_merged = merged@;
        proof {
            assert(requested@.take(i + 1).drop_last() =~= requested@.take(i as int));
            assert(requested@.take(i + 1).last() == requested@[i as int]);
        }
        let mut idx: usize = 0;
        let mut found = false;
        while idx < merged.len() && !found
            invariant
                idx <= merged@.len(),
                i < requested@.len(),
                key == request_view(requested@[i as int]),
                *e == requested@[i as int],
                found ==> idx < merged@.len() && request_view(merged@[idx as int]) == key,
                !found ==> forall|q: int| 0 <= q < idx ==> request_view(#[trigger] merged@[q]) != key,
            decreases merged@.len() - idx + (if found { 0int } else { 1int }),
        {
            if merged[idx].0.same_as(&e.0) && merged[idx].1 == e.1 {
                found = true;
            } else {
                idx = idx + 1;
            }
        }
        if found {
            let m = merged[idx].2;
            let low = if m <= e.2 { m } else { e.2 };
            let entry = (e.0.copy(), e.1, low);
            merged.set(idx, entry);
            proof {
                assert forall|q: int| 0 <= q < merged@.len() implies lowest_start(
                    requested@.take(i + 1),
                    request_view(#[trigger] merged@[q]),
                ) == Some(merged@[q].2) by {
                    if q == idx {
                        assert(request_view(merged@[q]) == key);
                    } else {
                        assert(merged@[q] == old_merged[q]);
                        assert(request_view(old_merged[q]) != request_view(old_merged[idx as int]));
                    }
                }
                assert forall|j: int| 0 <= j < i + 1 implies request_keys(merged@).contains(
                    request_view(#[trigger] requested@[j]),
                ) by {
                    if j == i {
                        assert(request_keys(merged@)[idx as int] == key);
                    } else {
                        let w = choose|w: int| 0 <= w < old_merged.len() && request_keys(old_merged)[w]
                            == request_view(requested@[j]);
                        assert(request_keys(merged@)[w] == request_keys(old_merged)[w]);
                    }
                }
            }
        } else {
            merged.push((e.0.copy(), e.1, e.2));
            proof {
                assert forall|q: int| 0 <= q < merged@.len() implies lowest_start(
                    requested@.take(i + 1),
                    request_view(#[trigger] merged@[q]),
                ) == Some(merged@[q].2) by {
                    if q == old_merged.len() {
                        assert(request_view(merged@[q]) == key);
                        assert(lowest_start(requested@.take(i as int), key) is None) by {
                            lemma_lowest_start_absent(requested@.take(i as int), key, old_merged);
                        }
                    } else {
                        assert(merged@[q] == old_merged[q]);
                    }
                }
                assert forall|j: int| 0 <= j < i + 1 implies request_keys(merged@).contains(
                    request_view(#[trigger] requested@[j]),
                ) by {
                    if j == i {
                        assert(request_keys(merged@)[old_merged.len() as int] == key);
                    } else {
                        let w = choose|w: int| 0 <= w < old_merged.len() && request_keys(old_merged)[w]
                            == request_view(requested@[j]);
                        assert(request_keys(merged@)[w] == request_keys(old_merged)[w]);
                    }
                }
            }
        }
        i = i + 1;
    }
    proof {
        assert(requested@.take(requested@.len() as int) =~= requested@);
    }
    let mut r: Vec<(Script, IndexedScriptType, u64)> = Vec::new();
    let mut k: usize = 0;
    while k < merged.len()
        invariant
            k <= merged@.len(),
            forall|a: int, b: int|
                0 <= a < b < merged@.len() ==> request_view(#[trigger] merged@[a]) != request_view(#[trigger] merged@[b]),
            forall|q: int|
                0 <= q < merged@.len() ==> lowest_start(requested@, request_view(#[trigger] merged@[q]))
                    == Some(merged@[q].2),
            forall|a: int|
                0 <= a < r@.len() ==> exists|q: int|
                    0 <= q < k && request_view(#[trigger] r@[a]) == request_view(merged@[q]),
            forall|a: int, b: int| 0 <= a < b < r@.len() ==> request_view(#[trigger] r@[a]) != request_view(#[trigger] r@[b]),
            forall|a: int|
                0 <= a < r@.len() ==> lowest_start(requested@, request_view(#[trigger] r@[a])) == Some(r@[a].2)
                    && extends_coverage(known@, request_view(r@[a]), r@[a].2),
            forall|q: int|
                0 <= q < k && extends_coverage(known@, request_view(#[trigger] merged@[q]), merged@[q].2)
                    ==> request_keys(r@).contains(request_view(merged@[q])),
        decreases merged@.len() - k,
    {
        let known_start = lowest_start_in(known, &merged[k].0, merged[k].1);
        let extends = match known_start {
            None => true,
            Some(s) => merged[k].2 < s,
        };
        let ghost old_r = r@;
        proof {
            assert(extends == extends_coverage(known@, request_view(merged@[k as int]), merged@[k as int].2));
        }
        if extends {
            r.push((merged[k].0.copy(), merged[k].1, merged[k].2));
            proof {
                assert(request_view(r@[old_r.len() as int]) == request_view(merged@[k as int]));
                assert forall|a: int| 0 <= a < r@.len() implies exists|q: int|
                    0 <= q < k + 1 && request_view(#[trigger] r@[a]) == request_view(merged@[q]) by {
                    if a < old_r.len() {
                        assert(r@[a] == old_r[a]);
                        let q = choose|q: int| 0 <= q < k && request_view(old_r[a]) == request_view(merged@[q]);
                        assert(request_view(r@[a]) == request_view(merged@[q]));
                    } else {
                        assert(request_view(r@[a]) == request_view(merged@[k as int]));
                    }
                }
                assert forall|a: int, b: int| 0 <= a < b < r@.len() implies request_view(#[trigger] r@[a])
                    != request_view(#[trigger] r@[b]) by {
                    if b == old_r.len() {
                        assert(r@[a] == old_r[a]);
                        let q = choose|q: int| 0 <= q < k && request_view(old_r[a]) == request_view(merged@[q]);
                        assert(request_view(merged@[q]) != request_view(merged@[k as int]));
                    } else {
                        assert(r@[a] == old_r[a]);
                        assert(r@[b] == old_r[b]);
                    }
                }
                assert forall|q: int|
                    0 <= q < k + 1 && extends_coverage(known@, request_view(#[trigger] merged@[q]), merged@[q].2)
                        implies request_keys(r@).contains(request_view(merged@[q])) by {
                    if q == k {
                        assert(request_keys(r@)[old_r.len() as int] == request_view(merged@[q]));
                    } else {
                        let w = choose|w: int| 0 <= w < old_r.len() && request_keys(old_r)[w]
                            == request_view(merged@[q]);
                        assert(request_keys(r@)[w] == request_keys(old_r)[w]);
                    }
                }
            }
        }
        k = k + 1;
    }
    r
}

/// A key that no entry of a list of distinct keys has was not requested in
/// `v` when every key of `v` is among them.
proof fn lemma_lowest_start_absent(
    v: Seq<(Script, IndexedScriptType, u64)>,
    key: ((Seq<u8>, crate::ckb_script::ScriptHashType, Seq<u8>), IndexedScriptType),
    merged: Seq<(Script, IndexedScriptType, u64)>,
)
    requires
        forall|j: int| 0 <= j < v.len() ==> request_keys(merged).contains(request_view(#[trigger] v[j])),
        forall|q: int| 0 <= q < merged.len() ==> request_view(#[trigger] merged[q]) != key,
    ensures
        lowest_start(v, key) is None,
    decreases v.len(),
{
    if v.len() > 0 {
        assert forall|j: int| 0 <= j < v.drop_last().len() implies request_keys(merged).contains(
            request_view(#[trigger] v.drop_last()[j]),
        ) by {
            assert(v.drop_last()[j] == v[j]);
        }
        lemma_lowest_start_absent(v.drop_last(), key, merged);
        let w = choose|w: int| 0 <= w < merged.len() && request_keys(merged)[w] == request_view(v[v.len() - 1]);
        assert(request_view(merged[w]) != key);
    }
}

} // verus!
