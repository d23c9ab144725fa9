//! The typed Rust API for embedding a Fiber node: its error values, start
//! options and the option types of peer connection and history discovery.
use vstd::prelude::*;

use crate::ckb_script::Script;
use crate::text::{owned, seq_starts_with, starts_with, chars_of};
use crate::wallet_history::{select_wallet_history_start_block, wallet_history_start, WalletHistoryDiscovery};

verus! {

/// The broad category of an error returned by the native API.
#[derive(Clone, Copy, Debug, Eq, PartialEq, Structural)]
pub enum ErrorKind {
    InvalidArgument,
    StartupFailed,
    AlreadyStopped,
    Panic,
    NotReady,
}

/// Error returned by the native API.
#[derive(Clone, Debug)]
pub struct Error {
    kind: ErrorKind,
    message: String,
}

impl Error {
    /// The category of this error.
    pub closed spec fn spec_kind(&self) -> ErrorKind {
        self.kind
    }

    /// The message of this error.
    pub closed spec fn spec_message(&self) -> Seq<char> {
        self.message@
    }

    pub fn kind(&self) -> (k: ErrorKind)
        ensures
            k == self.spec_kind(),
    {
        self.kind
    }

    pub fn message(&self) -> (m: &str)
        ensures
            m@ == self.spec_message(),
    {
        self.message.as_str()
    }

    pub fn new(kind: ErrorKind, message: String) -> (e: Self)
        ensures
            e.spec_kind() == kind,
            e.spec_message() == message@,
    {
        Error { kind, message }
    }

    /// The message, as `Display` writes it.
    pub fn to_string(&self) -> (s: String)
        ensures
            s@ == self.spec_message(),
    {
        self.message.clone()
    }
}

/// Options for starting a native Fiber node. An event handler, if any, is
/// held by the caller alongside these options.
#[derive(Clone, Debug)]
pub struct StartOptions {
    pub config_path: String,
    pub database_prefix: Option<String>,
    pub log_level: String,
}

impl StartOptions {
    /// Options for the configuration at `config_path`, with the database
    /// next to it and `info` logging.
    pub fn new(config_path: &str) -> (o: Self)
        ensures
            o.config_path@ == config_path@,
            o.database_prefix is None,
            o.log_level@ == "info"@,
    {
        StartOptions { config_path: owned(config_path), database_prefix: None, log_level: owned("info") }
    }
}

/// The transport of a peer connection.
#[derive(Clone, Copy, Debug, Eq, PartialEq, Structural)]
pub enum TransportType {
    Ws,
    Wss,
    Tcp,
    Tls,
    Memory,
    Onion,
    QuicV1,
}

/// A compressed secp256k1 public key identifying a Fiber node.
#[derive(Clone, Debug)]
pub struct Pubkey {
    pub bytes: Vec<u8>,
}

/// Selects how a native peer connection is established.
#[derive(Clone, Debug)]
pub enum ConnectPeerOptions {
    /// Dial a full multiaddr, optionally remembering it.
    Address { address: String, save: bool },
    /// Dial a known node by its key, optionally over a given transport.
    Pubkey { pubkey: Pubkey, address_type: Option<TransportType> },
}

/// Options for discovering the earliest CKB block a wallet needs to scan.
#[derive(Clone, Debug)]
pub struct CkbHistoryDiscoveryOptions {
    pub rpc_url: String,
    pub funding_lock: Script,
    pub safety_blocks: u64,
    pub max_indexer_lag: u64,
}

/// The version of this crate.
pub open spec fn crate_version() -> Seq<char> {
    "0.1.0"@
}

/// Return the crate version used by both native and C callers.
pub fn version() -> (v: &'static str)
    ensures
        v@ == crate_version(),
{
    "0.1.0"
}

/// Whether `url` names an HTTP or HTTPS endpoint.
pub open spec fn is_http_url(url: Seq<char>) -> bool {
    seq_starts_with(url, "https://"@) || seq_starts_with(url, "http://"@)
}

/// Whether `url` starts with `http://` or `https://`.
pub fn http_url(url: &str) -> (r: bool)
    ensures
        r == is_http_url(url@),
{
    let u = chars_of(url);
    starts_with(&u, &chars_of("https://")) || starts_with(&u, &chars_of("http://"))
}

/// Checks the endpoint of a history discovery before contacting it.
pub fn validate_discovery_rpc_url(rpc_url: &str) -> (r: Result<(), Error>)
    ensures
        is_http_url(rpc_url@) ==> r is Ok,
        !is_http_url(rpc_url@) ==> (r matches Err(e) && e.spec_kind() == ErrorKind::InvalidArgument
            && e.spec_message() == "rpc_url must use http:// or https://"@),
{
    if !http_url(rpc_url) {
        return Err(Error::new(ErrorKind::InvalidArgument, owned("rpc_url must use http:// or https://")));
    }
    Ok(())
}

/// The history start block for a finished discovery: the discovery error
/// as a startup failure, or the discovered height less the safety window.
pub fn history_start_from_discovery(
    discovery: Result<WalletHistoryDiscovery, String>,
    safety_blocks: u64,
) -> (r: Result<u64, Error>)
    ensures
        match discovery {
            Ok(d) => r == Ok::<u64, Error>(wallet_history_start(d, safety_blocks as nat) as u64),
            Err(m) => r matches Err(e) && e.spec_kind() == ErrorKind::StartupFailed
                && e.spec_message() == m@,
        },
{
    match discovery {
        Ok(d) => Ok(select_wallet_history_start_block(&d, safety_blocks)),
        Err(m) => Err(Error::new(ErrorKind::StartupFailed, m)),
    }
}


/// How a node start relates to the chain this process already runs on:
/// the first start initializes it, later starts must use the same chain.
pub open spec fn chain_hash_admission_of(initialized: Option<Seq<char>>, chain_hash: Seq<char>) -> Result<
    bool,
    Seq<char>,
> {
    match initialized {
        None => Ok(true),
        Some(existing) => if existing == chain_hash {
            Ok(false)
        } else {
            Err("cannot restart fiber with a different chain hash in the same process"@)
        },
    }
}

/// Decides whether a node start on `chain_hash` initializes the process's
/// chain (`true`), reuses it (`false`), or is refused.
pub fn chain_hash_admission(initialized: &Option<String>, chain_hash: &str) -> (r: Result<bool, String>)
    ensures
        match chain_hash_admission_of(
            match initialized {
                Some(e) => Some(e@),
                None => None,
            },
            chain_hash@,
        ) {
            Ok(b) => r == Ok::<bool, String>(b),
            Err(m) => r matches Err(e) && e@ == m,
        },
{
    match initialized {
        None => Ok(true),
        Some(existing) => {
            if crate::text::str_eq(existing.as_str(), chain_hash) {
                Ok(false)
            } else {
                Err(owned("cannot restart fiber with a different chain hash in the same process"))
            }
        },
    }
}

} // verus!
