//! Fixed rules of the embedded RPC gateway: which methods it serves, how it
//! reads an external liveness answer, and the operational height it exposes.
use vstd::prelude::*;

use crate::ckb_script::Script;
use crate::text::{
    ascii_lowercase, chars_of, contains, debug_quote, debug_quoted, decimal, owned, push_decimal,
    push_str, seq_contains, str_eq, to_ascii_lowercase,
};

verus! {

/// Methods served from verified Light Client data.
pub open spec fn local_methods() -> Seq<Seq<char>> {
    seq![
        "get_cells"@,
        "get_transactions"@,
        "get_tip_header"@,
        "get_tip_block_number"@,
        "get_indexer_tip"@,
        "get_consensus"@,
        "get_epoch_by_number"@,
        "get_block_by_number"@,
        "get_header"@,
        "get_header_by_number"@,
        "get_block_median_time"@,
        "get_transaction"@,
        "get_live_cell"@,
        "send_transaction"@,
    ]
}

/// The methods the gateway registers.
pub fn methods() -> (m: Vec<&'static str>)
    ensures
        m@.len() == local_methods().len(),
        forall|i: int| 0 <= i < m@.len() ==> (#[trigger] m@[i])@ == local_methods()[i],
{
    let mut m: Vec<&'static str> = Vec::new();
    m.push("get_cells");
    m.push("get_transactions");
    m.push("get_tip_header");
    m.push("get_tip_block_number");
    m.push("get_indexer_tip");
    m.push("get_consensus");
    m.push("get_epoch_by_number");
    m.push("get_block_by_number");
    m.push("get_header");
    m.push("get_header_by_number");
    m.push("get_block_median_time");
    m.push("get_transaction");
    m.push("get_live_cell");
    m.push("send_transaction");
    m
}

/// Where a method is handled.
#[derive(Clone, Copy, Debug, Eq, PartialEq, Structural)]
pub enum Route {
    Local,
    Unsupported,
}

/// A method is served locally exactly when it is one of the local methods;
/// every other method is refused as unsupported.
pub fn route_method(method: &str) -> (r: Route)
    ensures
        r == (if local_methods().contains(method@) { Route::Local } else { Route::Unsupported }),
{
    let m = methods();
    let mut i: usize = 0;
    while i < m.len()
        invariant
            i <= m.len(),
            m@.len() == local_methods().len(),
            forall|j: int| 0 <= j < m@.len() ==> (#[trigger] m@[j])@ == local_methods()[j],
            forall|j: int| 0 <= j < i ==> local_methods()[j] != method@,
        decreases m.len() - i,
    {
        if str_eq(m[i], method) {
            proof {
                assert(local_methods()[i as int] == method@);
            }
            return Route::Local;
        }
        i = i + 1;
    }
    Route::Unsupported
}

/// How an external full node's cell status counts as liveness evidence:
/// only `live` lets an input proceed, `dead` and `unknown` block it, and any
/// other status is an error.
pub open spec fn external_liveness(status: Seq<char>) -> Result<bool, Seq<char>> {
    if status == "live"@ {
        Ok(true)
    } else if status == "dead"@ || status == "unknown"@ {
        Ok(false)
    } else {
        Err("peer funding liveness RPC returned unsupported cell status "@ + debug_quoted(status))
    }
}

/// Reads the cell status reported by the external liveness reference.
pub fn interpret_external_liveness_status(status: &str) -> (r: Result<bool, String>)
    ensures
        match external_liveness(status@) {
            Ok(b) => r == Ok::<bool, String>(b),
            Err(m) => r matches Err(e) && e@ == m,
        },
{
    if str_eq(status, "live") {
        Ok(true)
    } else if str_eq(status, "dead") || str_eq(status, "unknown") {
        Ok(false)
    } else {
        let mut m = owned("peer funding liveness RPC returned unsupported cell status ");
        let quoted = debug_quote(status);
        push_str(&mut m, quoted.as_str());
        Err(m)
    }
}

/// The script field a subscription matches on, as the Light Client service
/// names it.
#[derive(Clone, Copy, Debug, Eq, PartialEq, Hash, Structural)]
pub enum ScriptType {
    Lock,
    Type,
}

/// The script field a subscription matches on, as the gateway keys its
/// coverage records.
#[derive(Clone, Copy, Debug, Eq, PartialEq, Hash, Structural)]
pub enum IndexedScriptType {
    Lock,
    Type,
}

impl IndexedScriptType {
    /// The service's name for this script field.
    pub fn service_type(self) -> (t: ScriptType)
        ensures
            (self == IndexedScriptType::Lock) == (t == ScriptType::Lock),
    {
        match self {
            IndexedScriptType::Lock => ScriptType::Lock,
            IndexedScriptType::Type => ScriptType::Type,
        }
    }

    /// The gateway's key for a service script field.
    pub fn from_service_type(t: ScriptType) -> (r: IndexedScriptType)
        ensures
            (r == IndexedScriptType::Lock) == (t == ScriptType::Lock),
    {
        match t {
            ScriptType::Lock => IndexedScriptType::Lock,
            ScriptType::Type => IndexedScriptType::Type,
        }
    }
}

/// A copy of a script field.
pub fn copy_script_type(script_type: &ScriptType) -> (r: ScriptType)
    ensures
        r == *script_type,
{
    match script_type {
        ScriptType::Lock => ScriptType::Lock,
        ScriptType::Type => ScriptType::Type,
    }
}

/// Whether two script fields are the same.
pub fn same_script_type(left: &ScriptType, right: &ScriptType) -> (r: bool)
    ensures
        r == (*left == *right),
{
    match (left, right) {
        (ScriptType::Lock, ScriptType::Lock) => true,
        (ScriptType::Type, ScriptType::Type) => true,
        _ => false,
    }
}

/// A subscribed script and the block its scan has reached.
#[derive(Clone, Debug)]
pub struct ScriptStatus {
    pub script: Script,
    pub script_type: ScriptType,
    pub block_number: u64,
}

/// The heights of a list of script statuses.
pub open spec fn status_heights(scripts: Seq<ScriptStatus>) -> Seq<u64> {
    Seq::new(scripts.len(), |i: int| scripts[i].block_number)
}

/// The operational tip: the slowest complete script height, never above
/// the network tip; the network tip itself when nothing is subscribed.
pub open spec fn operational_tip(network_tip: u64, heights: Seq<u64>) -> u64 {
    if heights.len() == 0 {
        network_tip
    } else {
        let s = crate::light_client::runtime_rules::slowest(heights);
        if s <= network_tip { s as u64 } else { network_tip }
    }
}

/// The height up to which every subscribed script is fully indexed, capped
/// at the verified network tip.
pub fn indexed_tip_number(network_tip: u64, scripts: &Vec<ScriptStatus>) -> (r: u64)
    ensures
        r == operational_tip(network_tip, status_heights(scripts@)),
        r <= network_tip,
        forall|i: int| 0 <= i < scripts.len() ==> r <= #[trigger] scripts@[i].block_number,
{
    let mut heights: Vec<u64> = Vec::new();
    let mut i: usize = 0;
    while i < scripts.len()
        invariant
            i <= scripts.len(),
            heights@ == status_heights(scripts@.take(i as int)),
        decreases scripts.len() - i,
    {
        heights.push(scripts[i].block_number);
        proof {
            assert(status_heights(scripts@.take(i + 1)) =~= status_heights(scripts@.take(i as int)).push(
                scripts@[i as int].block_number,
            ));
        }
        i = i + 1;
    }
    proof {
        assert(scripts@.take(scripts.len() as int) =~= scripts@);
        assert(heights@ =~= status_heights(scripts@));
    }
    if heights.len() == 0 {
        return network_tip;
    }
    let s = crate::light_client::runtime_rules::slowest_height(&heights);
    proof {
        assert forall|i: int| 0 <= i < scripts.len() implies s <= #[trigger] scripts@[i].block_number by {
            assert(heights@[i] == scripts@[i].block_number);
        }
    }
    if s <= network_tip { s } else { network_tip }
}

/// CKB's error code for a query the Light Client cannot answer yet.
pub const NOT_READY_ERROR: i64 = -32010;

/// CKB's error code for a method the gateway does not serve.
pub const UNSUPPORTED_ERROR: i64 = -32011;

/// CKB's error code for a transaction whose inputs cannot be resolved.
pub const TRANSACTION_FAILED_TO_RESOLVE: i64 = -301;

/// CKB's error code for a transaction that fails verification.
pub const TRANSACTION_FAILED_TO_VERIFY: i64 = -302;

/// CKB's error code for a transaction whose fee rate is too low.
pub const POOL_REJECTED_TRANSACTION_BY_MIN_FEE_RATE: i64 = -1104;

/// The largest page a query may ask for.
pub const MAX_QUERY_LIMIT: u32 = 1_000;

/// The code of a JSON-RPC error.
#[derive(Clone, Copy, Debug, PartialEq, Eq, Structural)]
pub enum RpcErrorCode {
    InvalidParams,
    InternalError,
    ServerError(i64),
}

/// A JSON-RPC error: code, message, and optional string data.
#[derive(Clone, Debug)]
pub struct RpcError {
    pub code: RpcErrorCode,
    pub message: String,
    pub data: Option<String>,
}

/// The view of an error: code, message and data.
pub open spec fn rpc_error_view(e: RpcError) -> (RpcErrorCode, Seq<char>, Option<Seq<char>>) {
    (
        e.code,
        e.message@,
        match e.data {
            Some(d) => Some(d@),
            None => None,
        },
    )
}

/// An error for bad parameters.
pub fn invalid_params(message: String) -> (e: RpcError)
    ensures
        rpc_error_view(e) == (RpcErrorCode::InvalidParams, message@, None::<Seq<char>>),
{
    RpcError { code: RpcErrorCode::InvalidParams, message, data: None }
}

/// An error for a query the Light Client cannot answer yet.
pub fn not_ready(message: String) -> (e: RpcError)
    ensures
        rpc_error_view(e) == (RpcErrorCode::ServerError(NOT_READY_ERROR), message@, None::<
            Seq<char>,
        >),
{
    RpcError { code: RpcErrorCode::ServerError(NOT_READY_ERROR), message, data: None }
}

/// An error for something the gateway does not support.
pub fn unsupported(message: String) -> (e: RpcError)
    ensures
        rpc_error_view(e) == (RpcErrorCode::ServerError(UNSUPPORTED_ERROR), message@, None::<
            Seq<char>,
        >),
{
    RpcError { code: RpcErrorCode::ServerError(UNSUPPORTED_ERROR), message, data: None }
}

/// An internal error.
pub fn internal_error(message: String) -> (e: RpcError)
    ensures
        rpc_error_view(e) == (RpcErrorCode::InternalError, message@, None::<Seq<char>>),
{
    RpcError { code: RpcErrorCode::InternalError, message, data: None }
}

/// A transaction error as CKB reports it: the message prefixed by the
/// error's name, the bare message as data.
pub fn transaction_error(code: i64, name: &str, message: String) -> (e: RpcError)
    ensures
        rpc_error_view(e) == (RpcErrorCode::ServerError(code), name@ + ": "@ + message@, Some(
            message@,
        )),
{
    let mut m = owned(name);
    push_str(&mut m, ": ");
    push_str(&mut m, message.as_str());
    RpcError { code: RpcErrorCode::ServerError(code), message: m, data: Some(message) }
}

/// A transaction whose inputs cannot be resolved.
pub fn transaction_failed_to_resolve(message: String) -> (e: RpcError)
    ensures
        rpc_error_view(e) == (RpcErrorCode::ServerError(TRANSACTION_FAILED_TO_RESOLVE),
        "TransactionFailedToResolve"@ + ": "@ + message@, Some(message@)),
{
    transaction_error(TRANSACTION_FAILED_TO_RESOLVE, "TransactionFailedToResolve", message)
}

/// A transaction that fails verification.
pub fn transaction_failed_to_verify(message: String) -> (e: RpcError)
    ensures
        rpc_error_view(e) == (RpcErrorCode::ServerError(TRANSACTION_FAILED_TO_VERIFY),
        "TransactionFailedToVerify"@ + ": "@ + message@, Some(message@)),
{
    transaction_error(TRANSACTION_FAILED_TO_VERIFY, "TransactionFailedToVerify", message)
}

/// The CKB error a failed submission maps to, by its message: an unknown
/// out point cannot be resolved, a low fee rate is rejected by the pool, and
/// anything else failed verification.
pub open spec fn send_error_code(message: Seq<char>) -> (i64, Seq<char>) {
    if seq_contains(message, "OutPoint("@) {
        (TRANSACTION_FAILED_TO_RESOLVE, "TransactionFailedToResolve"@)
    } else if seq_contains(ascii_lowercase(message), "low fee rate"@) {
        (POOL_REJECTED_TRANSACTION_BY_MIN_FEE_RATE, "PoolRejectedTransactionByMinFeeRate"@)
    } else {
        (TRANSACTION_FAILED_TO_VERIFY, "TransactionFailedToVerify"@)
    }
}

/// Maps the Light Client's submission error, by its message, to CKB's
/// transaction error codes.
pub fn map_send_transaction_error(message: String) -> (e: RpcError)
    ensures
        rpc_error_view(e) == (RpcErrorCode::ServerError(send_error_code(message@).0),
        send_error_code(message@).1 + ": "@ + message@, Some(message@)),
{
    let chars = chars_of(message.as_str());
    if contains(&chars, &chars_of("OutPoint(")) {
        transaction_failed_to_resolve(message)
    } else if contains(&to_ascii_lowercase(&chars), &chars_of("low fee rate")) {
        transaction_error(
            POOL_REJECTED_TRANSACTION_BY_MIN_FEE_RATE,
            "PoolRejectedTransactionByMinFeeRate",
            message,
        )
    } else {
        transaction_failed_to_verify(message)
    }
}

/// Accepts a page size between 1 and the maximum.
pub fn validate_limit(limit: u32) -> (r: Result<(), RpcError>)
    ensures
        1 <= limit <= MAX_QUERY_LIMIT ==> r is Ok,
        !(1 <= limit <= MAX_QUERY_LIMIT) ==> (r matches Err(e) && rpc_error_view(e) == (
            RpcErrorCode::InvalidParams,
            "limit must be between 1 and "@ + decimal(MAX_QUERY_LIMIT as nat),
            None::<Seq<char>>,
        )),
{
    if limit == 0 || limit > MAX_QUERY_LIMIT {
        let mut m = owned("limit must be between 1 and ");
        push_decimal(&mut m, MAX_QUERY_LIMIT as u64);
        return Err(invalid_params(m));
    }
    Ok(())
}

/// How a search key's script is matched.
#[derive(Clone, Copy, Debug, Eq, PartialEq, Structural)]
pub enum SearchMode {
    Prefix,
    Exact,
    Partial,
}

/// The search mode a search key names: `exact` and `partial` are
/// recognized, anything else (or none) is prefix search.
pub fn search_mode(script_search_mode: Option<&str>) -> (r: SearchMode)
    ensures
        r == (match script_search_mode {
            Some(m) => if m@ == "exact"@ {
                SearchMode::Exact
            } else if m@ == "partial"@ {
                SearchMode::Partial
            } else {
                SearchMode::Prefix
            },
            None => SearchMode::Prefix,
        }),
{
    match script_search_mode {
        Some(m) => if str_eq(m, "exact") {
            SearchMode::Exact
        } else if str_eq(m, "partial") {
            SearchMode::Partial
        } else {
            SearchMode::Prefix
        },
        None => SearchMode::Prefix,
    }
}

/// The hash of the first recent header with number `block_number`.
pub fn find_recent_block_hash(block_number: u64, headers: &Vec<(u64, Vec<u8>)>) -> (r: Option<
    Vec<u8>,
>)
    ensures
        match r {
            Some(h) => exists|i: int|
                0 <= i < headers.len() && (#[trigger] headers@[i]).0 == block_number
                    && h@ == headers@[i].1@ && forall|j: int|
                    0 <= j < i ==> (#[trigger] headers@[j]).0 != block_number,
            None => forall|i: int| 0 <= i < headers.len() ==> (#[trigger] headers@[i]).0 != block_number,
        },
{
    let mut i: usize = 0;
    while i < headers.len()
        invariant
            i <= headers.len(),
            forall|j: int| 0 <= j < i ==> (#[trigger] headers@[j]).0 != block_number,
        decreases headers.len() - i,
    {
        if headers[i].0 == block_number {
            let h = headers[i].1.clone();
            proof {
                assert(h@ =~= headers@[i as int].1@);
            }
            return Some(h);
        }
        i = i + 1;
    }
    None
}

} // verus!
