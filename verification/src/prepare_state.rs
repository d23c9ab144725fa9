//! The lifecycle of a prepared embedded CKB backend: at most one preparation
//! runs at a time; a finished one is handed to exactly one Fiber start with
//! the same configuration, and is released again when that Fiber stops.
use vstd::prelude::*;

use crate::ckb_encoding::{blake2b_256, ckb_blake2b_256, hex_encode, hex_text};
use crate::ffi_types::{ffi_error, sanitized, FfiError, FiberFfiStatus};
use crate::funding_identity::{public_key_of_secret, secp256k1_public_key_of};
use crate::text::{owned, push_str};
use crate::wallet_history::{earliest_history_start, select_earliest_history_start_block};

verus! {

/// Everything a prepared backend depends on. A Fiber start may reuse a
/// prepared backend only when its key is identical.
#[derive(Clone, Debug)]
pub struct CkbPreparationKey {
    pub config_path: String,
    pub database_prefix: Option<String>,
    pub config_contents_hash: String,
    pub funding_pubkey_hash: String,
    pub history_start_block: u64,
}

/// The comparable contents of a key.
pub open spec fn key_view(k: CkbPreparationKey) -> (
    Seq<char>,
    Option<Seq<char>>,
    Seq<char>,
    Seq<char>,
    u64,
) {
    (
        k.config_path@,
        match k.database_prefix {
            Some(p) => Some(p@),
            None => None,
        },
        k.config_contents_hash@,
        k.funding_pubkey_hash@,
        k.history_start_block,
    )
}

/// Two keys describe the same preparation.
pub open spec fn same_key(a: CkbPreparationKey, b: CkbPreparationKey) -> bool {
    key_view(a) == key_view(b)
}

impl CkbPreparationKey {
    /// Whether both keys describe the same preparation.
    pub fn same_as(&self, other: &CkbPreparationKey) -> (r: bool)
        ensures
            r == same_key(*self, *other),
    {
        let prefix_equal = match (&self.database_prefix, &other.database_prefix) {
            (Some(a), Some(b)) => *a == *b,
            (None, None) => true,
            _ => false,
        };
        self.config_path == other.config_path && prefix_equal && self.config_contents_hash
            == other.config_contents_hash && self.funding_pubkey_hash == other.funding_pubkey_hash
            && self.history_start_block == other.history_start_block
    }
}

/// A preparation run, identified by the number it was started with.
#[derive(Clone, Debug)]
pub struct PreparationWorker {
    pub id: u64,
    pub key: CkbPreparationKey,
}

/// Where the single embedded backend of the process stands.
#[derive(Clone, Debug)]
pub enum CkbPreparationState {
    Idle,
    Preparing(PreparationWorker),
    Ready(PreparationWorker),
    InUse(CkbPreparationKey),
}

/// What a new preparation request leads to.
#[derive(Clone, Copy, Debug, PartialEq, Eq, Structural)]
pub enum PreparationAdmission {
    /// Nothing is prepared: start a new preparation run.
    Start,
    /// The same configuration is already prepared: report it ready again.
    AlreadyReady,
}

/// The error, if any, with which a preparation request for `key` is refused
/// in state `s`: its status and message.
pub open spec fn admission_refusal(s: CkbPreparationState, key: CkbPreparationKey) -> Option<Seq<char>> {
    match s {
        CkbPreparationState::Idle => None,
        CkbPreparationState::Preparing(w) => if same_key(w.key, key) {
            Some("CKB preparation is already in progress"@)
        } else {
            Some("CKB preparation is already in progress for a different configuration"@)
        },
        CkbPreparationState::Ready(w) => if same_key(w.key, key) {
            None
        } else {
            Some("CKB is already prepared for a different configuration"@)
        },
        CkbPreparationState::InUse(k) => if same_key(k, key) {
            Some("prepared CKB is already in use by Fiber"@)
        } else {
            Some("CKB is already in use by Fiber with a different configuration"@)
        },
    }
}

/// The error, if any, with which a Fiber start with `key` is refused in
/// state `s`.
pub open spec fn take_refusal(s: CkbPreparationState, key: CkbPreparationKey) -> Option<Seq<char>> {
    match s {
        CkbPreparationState::Idle => None,
        CkbPreparationState::Preparing(_) => Some(
            "CKB is still preparing; wait for the preparation callback before starting Fiber"@,
        ),
        CkbPreparationState::Ready(w) => if same_key(w.key, key) {
            None
        } else {
            Some(
                "CKB was prepared with a different configuration, config_path, database_prefix, or funding key"@,
            )
        },
        CkbPreparationState::InUse(_) => Some("prepared CKB is already in use by Fiber"@),
    }
}

/// The state after run `id` reports that it finished under `resolved_key`.
pub open spec fn after_mark_ready(s: CkbPreparationState, id: u64, resolved_key: CkbPreparationKey) -> CkbPreparationState {
    match s {
        CkbPreparationState::Preparing(w) => if w.id == id {
            CkbPreparationState::Ready(PreparationWorker { id, key: resolved_key })
        } else {
            s
        },
        _ => s,
    }
}

/// The state after run `id` is abandoned.
pub open spec fn after_clear_preparation(s: CkbPreparationState, id: u64) -> CkbPreparationState {
    match s {
        CkbPreparationState::Preparing(w) => if w.id == id { CkbPreparationState::Idle } else { s },
        CkbPreparationState::Ready(w) => if w.id == id { CkbPreparationState::Idle } else { s },
        _ => s,
    }
}

/// The state after the Fiber started with `key` stops.
pub open spec fn after_clear_in_use(s: CkbPreparationState, key: CkbPreparationKey) -> CkbPreparationState {
    match s {
        CkbPreparationState::InUse(k) => if same_key(k, key) { CkbPreparationState::Idle } else { s },
        _ => s,
    }
}

/// The state after a Fiber start with `key`, and the prepared run it takes.
pub open spec fn after_take(s: CkbPreparationState, key: CkbPreparationKey) -> (CkbPreparationState, Option<PreparationWorker>) {
    match s {
        CkbPreparationState::Ready(w) => if same_key(w.key, key) {
            (CkbPreparationState::InUse(key), Some(w))
        } else {
            (s, None)
        },
        _ => (s, None),
    }
}

impl CkbPreparationState {
    /// Decides a preparation request for `key` without changing the state:
    /// only an idle backend starts a new run, and a backend prepared for the
    /// same key is reported ready again.
    pub fn admission(&self, key: &CkbPreparationKey) -> (r: Result<PreparationAdmission, FfiError>)
        ensures
            match admission_refusal(*self, *key) {
                Some(m) => r matches Err(e) && e.status == FiberFfiStatus::InvalidArgument
                    && e.message@ == sanitized(m),
                None => r == Ok::<PreparationAdmission, FfiError>(if self is Idle {
                    PreparationAdmission::Start
                } else {
                    PreparationAdmission::AlreadyReady
                }),
            },
    {
        match self {
            CkbPreparationState::Idle => Ok(PreparationAdmission::Start),
            CkbPreparationState::Preparing(worker) => {
                if worker.key.same_as(key) {
                    Err(ffi_error(FiberFfiStatus::InvalidArgument, "CKB preparation is already in progress"))
                } else {
                    Err(ffi_error(
                        FiberFfiStatus::InvalidArgument,
                        "CKB preparation is already in progress for a different configuration",
                    ))
                }
            },
            CkbPreparationState::Ready(worker) => {
                if worker.key.same_as(key) {
                    Ok(PreparationAdmission::AlreadyReady)
                } else {
                    Err(ffi_error(
                        FiberFfiStatus::InvalidArgument,
                        "CKB is already prepared for a different configuration",
                    ))
                }
            },
            CkbPreparationState::InUse(active_key) => {
                if active_key.same_as(key) {
                    Err(ffi_error(FiberFfiStatus::InvalidArgument, "prepared CKB is already in use by Fiber"))
                } else {
                    Err(ffi_error(
                        FiberFfiStatus::InvalidArgument,
                        "CKB is already in use by Fiber with a different configuration",
                    ))
                }
            },
        }
    }

    /// Records a newly started preparation run.
    pub fn start_preparing(&mut self, id: u64, key: CkbPreparationKey)
        requires
            *old(self) is Idle,
        ensures
            *final(self) == CkbPreparationState::Preparing(PreparationWorker { id, key }),
    {
        *self = CkbPreparationState::Preparing(PreparationWorker { id, key });
    }

    /// Marks run `id` as finished, under the key resolved after preparation.
    /// Returns false, leaving the state alone, when that run is no longer the
    /// one in progress.
    pub fn mark_ready(&mut self, id: u64, resolved_key: CkbPreparationKey) -> (marked: bool)
        ensures
            marked == (*old(self) matches CkbPreparationState::Preparing(w) && w.id == id),
            *final(self) == after_mark_ready(*old(self), id, resolved_key),
    {
        let mut current = CkbPreparationState::Idle;
        std::mem::swap(&mut current, self);
        match current {
            CkbPreparationState::Preparing(worker) => {
                if worker.id == id {
                    *self = CkbPreparationState::Ready(PreparationWorker { id, key: resolved_key });
                    true
                } else {
                    *self = CkbPreparationState::Preparing(worker);
                    false
                }
            },
            other => {
                *self = other;
                false
            },
        }
    }

    /// Forgets run `id`, whether still preparing or ready; any other state
    /// is kept.
    pub fn clear_preparation(&mut self, id: u64)
        ensures
            *final(self) == after_clear_preparation(*old(self), id),
    {
        let should_clear = match self {
            CkbPreparationState::Preparing(worker) => worker.id == id,
            CkbPreparationState::Ready(worker) => worker.id == id,
            _ => false,
        };
        if should_clear {
            *self = CkbPreparationState::Idle;
        }
    }

    /// Releases the backend that a Fiber started with `key` was using; any
    /// other state is kept.
    pub fn clear_in_use(&mut self, key: &CkbPreparationKey)
        ensures
            *final(self) == after_clear_in_use(*old(self), *key),
    {
        let should_clear = match self {
            CkbPreparationState::InUse(active_key) => active_key.same_as(key),
            _ => false,
        };
        if should_clear {
            *self = CkbPreparationState::Idle;
        }
    }

    /// Hands the backend prepared for `key` to a starting Fiber. An idle
    /// state yields nothing (Fiber starts its own backend); a backend that
    /// is preparing, prepared for another key, or in use refuses the start.
    pub fn take_prepared(&mut self, key: CkbPreparationKey) -> (r: Result<
        Option<PreparationWorker>,
        FfiError,
    >)
        ensures
            match take_refusal(*old(self), key) {
                Some(m) => r matches Err(e) && e.status == FiberFfiStatus::StartupFailed
                    && e.message@ == sanitized(m) && *final(self) == *old(self),
                None => r == Ok::<Option<PreparationWorker>, FfiError>(after_take(*old(self), key).1)
                    && *final(self) == after_take(*old(self), key).0,
            },
    {
        let mut current = CkbPreparationState::Idle;
        std::mem::swap(&mut current, self);
        match current {
            CkbPreparationState::Idle => Ok(None),
            CkbPreparationState::Preparing(worker) => {
                *self = CkbPreparationState::Preparing(worker);
                Err(ffi_error(
                    FiberFfiStatus::StartupFailed,
                    "CKB is still preparing; wait for the preparation callback before starting Fiber",
                ))
            },
            CkbPreparationState::Ready(worker) => {
                if worker.key.same_as(&key) {
                    *self = CkbPreparationState::InUse(key);
                    Ok(Some(worker))
                } else {
                    *self = CkbPreparationState::Ready(worker);
                    Err(ffi_error(
                        FiberFfiStatus::StartupFailed,
                        "CKB was prepared with a different configuration, config_path, database_prefix, or funding key",
                    ))
                }
            },
            CkbPreparationState::InUse(active_key) => {
                *self = CkbPreparationState::InUse(active_key);
                Err(ffi_error(FiberFfiStatus::StartupFailed, "prepared CKB is already in use by Fiber"))
            },
        }
    }
}

/// A prepared backend is handed to exactly one Fiber start: preparing run
/// `id`, finishing it under `key` and starting Fiber with `key` gives that
/// run to Fiber; a second start with the same key is refused while the first
/// Fiber runs; and releasing it when that Fiber stops returns to idle.
pub proof fn lemma_prepared_backend_lifecycle(id: u64, requested: CkbPreparationKey, key: CkbPreparationKey)
    ensures
        ({
            let preparing = CkbPreparationState::Preparing(PreparationWorker { id, key: requested });
            let ready = after_mark_ready(preparing, id, key);
            let (in_use, taken) = after_take(ready, key);
            &&& ready == CkbPreparationState::Ready(PreparationWorker { id, key })
            &&& take_refusal(ready, key) is None
            &&& taken == Some(PreparationWorker { id, key })
            &&& in_use == CkbPreparationState::InUse(key)
            &&& take_refusal(in_use, key) is Some
            &&& after_clear_in_use(in_use, key) is Idle
        }),
{
}

/// A run that is no longer current cannot disturb the state: marking it
/// ready or clearing it leaves every state that belongs to another run, or
/// to a Fiber, unchanged.
pub proof fn lemma_stale_run_is_ignored(s: CkbPreparationState, stale: u64, key: CkbPreparationKey)
    requires
        !(s matches CkbPreparationState::Preparing(w) && w.id == stale),
        !(s matches CkbPreparationState::Ready(w) && w.id == stale),
    ensures
        after_mark_ready(s, stale, key) == s,
        after_clear_preparation(s, stale) == s,
{
}

/// Why no preparation key can be made: the funding secret key is no
/// secp256k1 secret key.
pub open spec fn preparation_key_error(funding_secret_key: Seq<u8>) -> Option<Seq<char>> {
    match secp256k1_public_key_of(funding_secret_key) {
        Ok(_) => None,
        Err(e) => Some("failed to read the CKB funding key: "@ + e),
    }
}

/// The key of a preparation: where the configuration is and what it holds
/// (by its CKB hash in hexadecimal), the funding key (by the hash of the
/// compressed public key of its secret), and the earliest known history
/// start.
pub fn ckb_preparation_key(
    config_path: String,
    database_prefix: Option<String>,
    config_contents: &Vec<u8>,
    funding_secret_key: &Vec<u8>,
    configured: Option<u64>,
    persisted: Option<u64>,
    history_start_block_floor: Option<u64>,
    legacy: Option<u64>,
) -> (r: Result<CkbPreparationKey, FfiError>)
    ensures
        match preparation_key_error(funding_secret_key@) {
            Some(m) => r matches Err(e) && e.status == FiberFfiStatus::InvalidArgument
                && e.message@ == sanitized(m),
            None => r matches Ok(k) && {
                &&& k.config_path@ == config_path@
                &&& key_view(k).1 == (match database_prefix {
                    Some(p) => Some(p@),
                    None => None::<Seq<char>>,
                })
                &&& k.config_contents_hash@ == hex_text(ckb_blake2b_256(config_contents@))
                &&& secp256k1_public_key_of(funding_secret_key@) matches Ok(pk)
                    && k.funding_pubkey_hash@ == hex_text(ckb_blake2b_256(pk))
                &&& k.history_start_block == earliest_history_start(
                    configured,
                    persisted,
                    history_start_block_floor,
                    legacy,
                )
            },
        },
{
    let funding_pubkey = match public_key_of_secret(funding_secret_key) {
        Ok(k) => k,
        Err(e) => {
            let mut m = owned("failed to read the CKB funding key: ");
            push_str(&mut m, e.as_str());
            return Err(ffi_error(FiberFfiStatus::InvalidArgument, m.as_str()));
        },
    };
    let config_contents_hash = hex_encode(&blake2b_256(config_contents));
    let funding_pubkey_hash = hex_encode(&blake2b_256(&funding_pubkey));
    Ok(CkbPreparationKey {
        config_path,
        database_prefix,
        config_contents_hash,
        funding_pubkey_hash,
        history_start_block: select_earliest_history_start_block(
            configured,
            persisted,
            history_start_block_floor,
            legacy,
        ),
    })
}

} // verus!
