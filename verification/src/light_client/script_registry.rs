//! The scripts the gateway keeps subscribed: reconciling the stored
//! subscriptions with the scripts Fiber requires, the marker that records
//! which requirement set the store was prepared for, and the keys under which
//! per-script coverage is recorded.
use vstd::prelude::*;

use crate::ckb_encoding::{
    append_bytes, be32, be64, blake2b_256, byte_strings, bytes_of, ckb_blake2b_256, insert_sorted,
    lemma_strictly_sorted_unique, molecule_script, pack_script, push_be32, push_be64,
    strictly_sorted,
};
use crate::ckb_script::{
    hash_type_byte, lemma_hash_type_byte_injective, script_view, valid_hash_type, Script, ScriptHashType,
};
use vstd::string::StringSliceAdditionalSpecFns;
use crate::light_client::rpc_rules::{IndexedScriptType, ScriptStatus, ScriptType};

verus! {

/// The service's script field for a gateway script field.
pub open spec fn service_type_of(t: IndexedScriptType) -> ScriptType {
    match t {
        IndexedScriptType::Lock => ScriptType::Lock,
        IndexedScriptType::Type => ScriptType::Type,
    }
}

/// The identity of a subscription: the script and the field it matches.
pub open spec fn status_key(s: ScriptStatus) -> (Seq<u8>, ScriptHashType, Seq<u8>, ScriptType) {
    (s.script.code_hash@, s.script.hash_type, s.script.args@, s.script_type)
}

/// The identity of a requested subscription.
pub open spec fn request_key(r: (Script, IndexedScriptType, u64)) -> (
    Seq<u8>,
    ScriptHashType,
    Seq<u8>,
    ScriptType,
) {
    (r.0.code_hash@, r.0.hash_type, r.0.args@, service_type_of(r.1))
}

/// Scan progress by subscription; a later status of the same subscription
/// replaces an earlier one.
pub open spec fn progress_map(s: Seq<ScriptStatus>) -> Map<
    (Seq<u8>, ScriptHashType, Seq<u8>, ScriptType),
    u64,
>
    decreases s.len(),
{
    if s.len() == 0 {
        Map::empty()
    } else {
        progress_map(s.drop_last()).insert(status_key(s.last()), s.last().block_number)
    }
}

/// No subscription occurs twice.
pub open spec fn unique_keys(s: Seq<ScriptStatus>) -> bool {
    forall|i: int, j: int| 0 <= i < j < s.len() ==> status_key(s[i]) != status_key(s[j])
}

/// The block a new subscription's scan starts after: the one before its
/// first required block.
pub open spec fn start_height(first_indexed_block: u64) -> u64 {
    if first_indexed_block >= 1 {
        (first_indexed_block - 1) as u64
    } else {
        0
    }
}

/// `m` with each requested subscription that it lacks added at its start
/// height; subscriptions already present keep their progress.
pub open spec fn with_requested(
    m: Map<(Seq<u8>, ScriptHashType, Seq<u8>, ScriptType), u64>,
    r: Seq<(Script, IndexedScriptType, u64)>,
) -> Map<(Seq<u8>, ScriptHashType, Seq<u8>, ScriptType), u64>
    decreases r.len(),
{
    if r.len() == 0 {
        m
    } else {
        let before = with_requested(m, r.drop_last());
        if before.contains_key(request_key(r.last())) {
            before
        } else {
            before.insert(request_key(r.last()), start_height(r.last().2))
        }
    }
}

/// The subscriptions after reconciliation: the stored ones (only when their
/// progress is kept) together with every requested one.
pub open spec fn reconciled(
    existing: Seq<ScriptStatus>,
    requested: Seq<(Script, IndexedScriptType, u64)>,
    preserve_progress: bool,
) -> Map<(Seq<u8>, ScriptHashType, Seq<u8>, ScriptType), u64> {
    with_requested(if preserve_progress { progress_map(existing) } else { Map::empty() }, requested)
}

/// Whether the subscription set must be replaced: when progress is kept,
/// exactly when a requested subscription was missing; otherwise when the
/// stored set differs from the requested one.
pub open spec fn reconcile_changed(
    existing: Seq<ScriptStatus>,
    requested: Seq<(Script, IndexedScriptType, u64)>,
    preserve_progress: bool,
) -> bool {
    if preserve_progress {
        exists|i: int|
            0 <= i < requested.len() && !progress_map(existing).contains_key(
                #[trigger] request_key(requested[i]),
            )
    } else {
        existing.len() != reconciled(existing, requested, false).dom().len() || exists|j: int|
            0 <= j < existing.len() && !reconciled(existing, requested, false).contains_key(
                #[trigger] status_key(existing[j]),
            )
    }
}

/// A subscription is in the progress map exactly when some status has it.
pub proof fn lemma_progress_map_dom(
    s: Seq<ScriptStatus>,
    k: (Seq<u8>, ScriptHashType, Seq<u8>, ScriptType),
)
    ensures
        progress_map(s).contains_key(k) <==> exists|i: int|
            0 <= i < s.len() && #[trigger] status_key(s[i]) == k,
    decreases s.len(),
{
    if s.len() > 0 {
        lemma_progress_map_dom(s.drop_last(), k);
        if progress_map(s.drop_last()).contains_key(k) {
            let i = choose|i: int| 0 <= i < s.drop_last().len() && #[trigger] status_key(
                s.drop_last()[i],
            ) == k;
            assert(status_key(s[i]) == k);
        }
        if exists|i: int| 0 <= i < s.len() && #[trigger] status_key(s[i]) == k {
            let i = choose|i: int| 0 <= i < s.len() && #[trigger] status_key(s[i]) == k;
            if i < s.len() - 1 {
                assert(status_key(s.drop_last()[i]) == k);
            }
        }
    }
}

/// Replacing a status by one of the same subscription replaces its progress.
proof fn lemma_progress_map_update(s: Seq<ScriptStatus>, i: int, v: ScriptStatus)
    requires
        unique_keys(s),
        0 <= i < s.len(),
        status_key(v) == status_key(s[i]),
    ensures
        progress_map(s.update(i, v)) == progress_map(s).insert(status_key(v), v.block_number),
    decreases s.len(),
{
    let t = s.update(i, v);
    if i == s.len() - 1 {
        assert(t.drop_last() =~= s.drop_last());
        assert(progress_map(t) =~= progress_map(s).insert(status_key(v), v.block_number));
    } else {
        assert(t.drop_last() =~= s.drop_last().update(i, v));
        lemma_progress_map_update(s.drop_last(), i, v);
        assert(status_key(s[i]) != status_key(s.last()));
        assert(progress_map(t) =~= progress_map(s).insert(status_key(v), v.block_number));
    }
}

/// The progress map of statuses without repeats has one entry per status.
proof fn lemma_progress_map_len(s: Seq<ScriptStatus>)
    requires
        unique_keys(s),
    ensures
        progress_map(s).dom().finite(),
        progress_map(s).dom().len() == s.len(),
    decreases s.len(),
{
    if s.len() > 0 {
        let d = s.drop_last();
        assert(unique_keys(d));
        lemma_progress_map_len(d);
        lemma_progress_map_dom(d, status_key(s.last()));
        if progress_map(d).contains_key(status_key(s.last())) {
            let i = choose|i: int| 0 <= i < d.len() && #[trigger] status_key(d[i]) == status_key(
                s.last(),
            );
            assert(status_key(s[i]) == status_key(s[s.len() - 1]));
        }
        assert(progress_map(s).dom() =~= progress_map(d).dom().insert(status_key(s.last())));
    }
}

/// A subscription is present after adding the requested ones exactly when
/// it was present before or was requested.
pub proof fn lemma_with_requested_dom(
    m: Map<(Seq<u8>, ScriptHashType, Seq<u8>, ScriptType), u64>,
    r: Seq<(Script, IndexedScriptType, u64)>,
    k: (Seq<u8>, ScriptHashType, Seq<u8>, ScriptType),
)
    ensures
        with_requested(m, r).contains_key(k) <==> (m.contains_key(k) || exists|j: int|
            0 <= j < r.len() && #[trigger] request_key(r[j]) == k),
    decreases r.len(),
{
    if r.len() > 0 {
        lemma_with_requested_dom(m, r.drop_last(), k);
        if exists|j: int| 0 <= j < r.drop_last().len() && #[trigger] request_key(
            r.drop_last()[j],
        ) == k {
            let j = choose|j: int| 0 <= j < r.drop_last().len() && #[trigger] request_key(
                r.drop_last()[j],
            ) == k;
            assert(request_key(r[j]) == k);
        }
        if exists|j: int| 0 <= j < r.len() && #[trigger] request_key(r[j]) == k {
            let j = choose|j: int| 0 <= j < r.len() && #[trigger] request_key(r[j]) == k;
            if j < r.len() - 1 {
                assert(request_key(r.drop_last()[j]) == k);
            }
        }
    }
}

/// Adding requested subscriptions never changes the progress of one that
/// is already present.
pub proof fn lemma_with_requested_keeps(
    m: Map<(Seq<u8>, ScriptHashType, Seq<u8>, ScriptType), u64>,
    r: Seq<(Script, IndexedScriptType, u64)>,
    k: (Seq<u8>, ScriptHashType, Seq<u8>, ScriptType),
)
    requires
        m.contains_key(k),
    ensures
        with_requested(m, r).contains_key(k),
        with_requested(m, r)[k] == m[k],
    decreases r.len(),
{
    if r.len() > 0 {
        lemma_with_requested_keeps(m, r.drop_last(), k);
    }
}

/// A copy of a status.
fn copy_status(s: &ScriptStatus) -> (r: ScriptStatus)
    ensures
        status_key(r) == status_key(*s),
        r.block_number == s.block_number,
{
    ScriptStatus { script: s.script.copy(), script_type: s.script_type, block_number: s.block_number }
}

/// The position of the status of subscription (`script`, `script_type`).
fn find_status(v: &Vec<ScriptStatus>, script: &Script, script_type: ScriptType) -> (r: Option<
    usize,
>)
    ensures
        match r {
            Some(i) => i < v.len() && status_key(v@[i as int]) == (
                script.code_hash@,
                script.hash_type,
                script.args@,
                script_type,
            ),
            None => forall|i: int|
                0 <= i < v.len() ==> #[trigger] status_key(v@[i]) != (
                    script.code_hash@,
                    script.hash_type,
                    script.args@,
                    script_type,
                ),
        },
{
    let mut i: usize = 0;
    while i < v.len()
        invariant
            i <= v.len(),
            forall|j: int|
                0 <= j < i ==> #[trigger] status_key(v@[j]) != (
                    script.code_hash@,
                    script.hash_type,
                    script.args@,
                    script_type,
                ),
        decreases v.len() - i,
    {
        if v[i].script.same_as(script) && v[i].script_type == script_type {
            return Some(i);
        }
        i = i + 1;
    }
    None
}

/// Reconciles the stored subscriptions with the required ones. With
/// `preserve_progress` (the store was prepared for this requirement set)
/// stored subscriptions keep their progress and only missing required ones
/// are added; otherwise the result is exactly the required set, each at its
/// start height. Also says whether the stored set must be replaced.
pub fn reconcile_required_scripts(
    existing: Vec<ScriptStatus>,
    requested: &Vec<(Script, IndexedScriptType, u64)>,
    preserve_progress: bool,
) -> (r: (Vec<ScriptStatus>, bool))
    ensures
        unique_keys(r.0@),
        progress_map(r.0@) == reconciled(existing@, requested@, preserve_progress),
        r.1 == reconcile_changed(existing@, requested@, preserve_progress),
{
    let mut required: Vec<ScriptStatus> = Vec::new();
    if preserve_progress {
        let mut i: usize = 0;
        while i < existing.len()
            invariant
                i <= existing.len(),
                unique_keys(required@),
                progress_map(required@) == progress_map(existing@.take(i as int)),
            decreases existing.len() - i,
        {
            let st = &existing[i];
            let copied = copy_status(st);
            proof {
                assert(existing@.take(i + 1).drop_last() =~= existing@.take(i as int));
            }
            match find_status(&required, &st.script, st.script_type) {
                Some(k) => {
                    proof {
                        lemma_progress_map_update(required@, k as int, copied);
                    }
                    required.set(k, copied);
                },
                None => {
                    let ghost before = required@;
                    required.push(copied);
                    proof {
                        assert(required@.drop_last() =~= before);
                    }
                },
            }
            i = i + 1;
        }
        proof {
            assert(existing@.take(existing.len() as int) =~= existing@);
        }
    }
    let ghost base = progress_map(required@);
    proof {
        if !preserve_progress {
            assert(base =~= Map::empty());
        }
    }
    let mut changed = false;
    let mut j: usize = 0;
    while j < requested.len()
        invariant
            j <= requested.len(),
            unique_keys(required@),
            base == (if preserve_progress { progress_map(existing@) } else { Map::empty() }),
            progress_map(required@) == with_requested(base, requested@.take(j as int)),
            changed == exists|q: int|
                0 <= q < j && !base.contains_key(#[trigger] request_key(requested@[q])),
        decreases requested.len() - j,
    {
        let ghost taken = requested@.take(j as int);
        let ghost key = request_key(requested@[j as int]);
        proof {
            assert(requested@.take(j + 1).drop_last() =~= taken);
            assert(requested@.take(j + 1).last() == requested@[j as int]);
            lemma_progress_map_dom(required@, key);
            lemma_with_requested_dom(base, taken, key);
        }
        let (script, script_type, first_indexed_block) = &requested[j];
        let service = script_type.service_type();
        match find_status(&required, script, service) {
            Some(_) => {
                proof {
                    if !base.contains_key(key) {
                        let q = choose|q: int| 0 <= q < taken.len() && #[trigger] request_key(
                            taken[q],
                        ) == key;
                        assert(request_key(requested@[q]) == key);
                    }
                }
            },
            None => {
                let start: u64 = if *first_indexed_block >= 1 {
                    *first_indexed_block - 1
                } else {
                    0
                };
                let ghost before = required@;
                required.push(ScriptStatus { script: script.copy(), script_type: service, block_number: start });
                proof {
                    assert(required@.drop_last() =~= before);
                    assert(!base.contains_key(key));
                }
                changed = true;
            },
        }
        j = j + 1;
    }
    proof {
        assert(requested@.take(requested.len() as int) =~= requested@);
        lemma_progress_map_len(required@);
    }
    if !preserve_progress {
        let mut stale = false;
        let mut q: usize = 0;
        while q < existing.len()
            invariant
                q <= existing.len(),
                progress_map(required@) == reconciled(existing@, requested@, false),
                stale == exists|e: int|
                    0 <= e < q && !reconciled(existing@, requested@, false).contains_key(
                        #[trigger] status_key(existing@[e]),
                    ),
            decreases existing.len() - q,
        {
            proof {
                lemma_progress_map_dom(required@, status_key(existing@[q as int]));
            }
            if find_status(&required, &existing[q].script, existing[q].script_type).is_none() {
                stale = true;
            }
            q = q + 1;
        }
        changed = existing.len() != required.len() || stale;
    }
    (required, changed)
}

/// Every subscription added for a request starts at that request's start
/// height.
proof fn lemma_with_requested_start(
    r: Seq<(Script, IndexedScriptType, u64)>,
    k: (Seq<u8>, ScriptHashType, Seq<u8>, ScriptType),
)
    requires
        with_requested(Map::empty(), r).contains_key(k),
    ensures
        exists|j: int|
            0 <= j < r.len() && #[trigger] request_key(r[j]) == k && with_requested(
                Map::empty(),
                r,
            )[k] == start_height(r[j].2),
    decreases r.len(),
{
    let before = with_requested(Map::empty(), r.drop_last());
    if before.contains_key(k) {
        lemma_with_requested_start(r.drop_last(), k);
        let j = choose|j: int|
            0 <= j < r.drop_last().len() && #[trigger] request_key(r.drop_last()[j]) == k
                && before[k] == start_height(r.drop_last()[j].2);
        assert(request_key(r[j]) == k);
        assert(with_requested(Map::empty(), r)[k] == start_height(r[j].2));
    } else {
        assert(request_key(r[r.len() - 1]) == k);
    }
}

/// Reconciling with kept progress never moves a stored subscription's scan
/// position, and never drops a stored subscription.
pub proof fn lemma_reconcile_keeps_persisted_progress(
    existing: Seq<ScriptStatus>,
    requested: Seq<(Script, IndexedScriptType, u64)>,
    k: (Seq<u8>, ScriptHashType, Seq<u8>, ScriptType),
)
    requires
        progress_map(existing).contains_key(k),
    ensures
        reconciled(existing, requested, true).contains_key(k),
        reconciled(existing, requested, true)[k] == progress_map(existing)[k],
{
    lemma_with_requested_keeps(progress_map(existing), requested, k);
}

/// Whatever the stored state, every required script is subscribed after
/// reconciliation.
pub proof fn lemma_reconcile_covers_requested(
    existing: Seq<ScriptStatus>,
    requested: Seq<(Script, IndexedScriptType, u64)>,
    preserve_progress: bool,
    j: int,
)
    requires
        0 <= j < requested.len(),
    ensures
        reconciled(existing, requested, preserve_progress).contains_key(
            request_key(requested[j]),
        ),
{
    let base = if preserve_progress { progress_map(existing) } else { Map::empty() };
    lemma_with_requested_dom(base, requested, request_key(requested[j]));
}

/// Without kept progress the subscriptions are exactly the required ones,
/// each scanned from its start height: stale stored subscriptions and their
/// progress are discarded.
pub proof fn lemma_unmarked_reconcile_is_the_requested_set(
    existing: Seq<ScriptStatus>,
    requested: Seq<(Script, IndexedScriptType, u64)>,
    k: (Seq<u8>, ScriptHashType, Seq<u8>, ScriptType),
)
    ensures
        reconciled(existing, requested, false).contains_key(k) <==> exists|j: int|
            0 <= j < requested.len() && #[trigger] request_key(requested[j]) == k,
        reconciled(existing, requested, false).contains_key(k) ==> exists|j: int|
            0 <= j < requested.len() && #[trigger] request_key(requested[j]) == k
                && reconciled(existing, requested, false)[k] == start_height(requested[j].2),
{
    lemma_with_requested_dom(Map::empty(), requested, k);
    if reconciled(existing, requested, false).contains_key(k) {
        lemma_with_requested_start(requested, k);
    }
}

/// The byte that names a script field in markers and coverage keys.
pub open spec fn field_byte(t: IndexedScriptType) -> u8 {
    match t {
        IndexedScriptType::Lock => 0,
        IndexedScriptType::Type => 1,
    }
}

fn field_byte_of(t: IndexedScriptType) -> (b: u8)
    ensures
        b == field_byte(t),
{
    match t {
        IndexedScriptType::Lock => 0,
        IndexedScriptType::Type => 1,
    }
}

/// The molecule serialization of `script`.
pub open spec fn packed_script(script: Script) -> Seq<u8> {
    molecule_script(script.code_hash@, hash_type_byte(script.hash_type), script.args@)
}

/// Whether `script` has the shape of a CKB script that can be serialized
/// inside a marker: a 32-byte code hash and args short enough for the
/// 32-bit length fields.
pub open spec fn encodable_script(script: Script) -> bool {
    script.code_hash@.len() == 32 && script.args@.len() + 66 <= u32::MAX
}

/// The marker entry of one requirement: field byte, first required block as
/// 8 big-endian bytes, the serialized script's length as 4 big-endian bytes,
/// and the serialized script.
pub open spec fn marker_entry(r: (Script, IndexedScriptType, u64)) -> Seq<u8> {
    seq![field_byte(r.1)] + be64(r.2 as nat) + be32(packed_script(r.0).len()) + packed_script(r.0)
}

/// The entries, each preceded by its length as 4 big-endian bytes.
pub open spec fn framed(s: Seq<Seq<u8>>) -> Seq<u8>
    decreases s.len(),
{
    if s.len() == 0 {
        Seq::empty()
    } else {
        framed(s.drop_last()) + be32(s.last().len()) + s.last()
    }
}

/// The marker entry of one requirement.
fn marker_entry_of(r: &(Script, IndexedScriptType, u64)) -> (e: Vec<u8>)
    requires
        encodable_script(r.0),
    ensures
        e@ == marker_entry(*r),
        e@.len() <= u32::MAX,
{
    let (script, script_type, first_indexed_block) = r;
    let packed = pack_script(&script.code_hash, script.hash_type.to_byte(), &script.args);
    let mut entry: Vec<u8> = Vec::new();
    entry.push(field_byte_of(*script_type));
    push_be64(&mut entry, *first_indexed_block);
    push_be32(&mut entry, packed.len() as u32);
    append_bytes(&mut entry, &packed);
    proof {
        assert(entry@ =~= marker_entry(*r));
    }
    entry
}

/// The distinct marker entries of the requirements, in byte order.
fn sorted_marker_entries(requested: &Vec<(Script, IndexedScriptType, u64)>) -> (entries: Vec<
    Vec<u8>,
>)
    requires
        forall|j: int| 0 <= j < requested.len() ==> encodable_script(#[trigger] requested@[j].0),
    ensures
        strictly_sorted(byte_strings(entries@)),
        forall|e: Seq<u8>|
            #[trigger] byte_strings(entries@).contains(e) <==> exists|j: int|
                0 <= j < requested.len() && e == marker_entry(#[trigger] requested@[j]),
        forall|e: Seq<u8>| #[trigger] byte_strings(entries@).contains(e) ==> e.len() <= u32::MAX,
{
    let mut entries: Vec<Vec<u8>> = Vec::new();
    let mut j: usize = 0;
    while j < requested.len()
        invariant
            j <= requested.len(),
            forall|q: int| 0 <= q < requested.len() ==> encodable_script(#[trigger] requested@[q].0),
            strictly_sorted(byte_strings(entries@)),
            forall|e: Seq<u8>|
                #[trigger] byte_strings(entries@).contains(e) <==> exists|q: int|
                    0 <= q < j && e == marker_entry(#[trigger] requested@[q]),
            forall|e: Seq<u8>|
                #[trigger] byte_strings(entries@).contains(e) ==> e.len() <= u32::MAX,
        decreases requested.len() - j,
    {
        proof {
            assert(encodable_script(requested@[j as int].0));
        }
        let entry = marker_entry_of(&requested[j]);
        let ghost before = byte_strings(entries@);
        let ghost x = entry@;
        insert_sorted(&mut entries, entry);
        proof {
            assert forall|e: Seq<u8>|
                #[trigger] byte_strings(entries@).contains(e) <==> exists|q: int|
                    0 <= q < j + 1 && e == marker_entry(#[trigger] requested@[q]) by {
                if e == x {
                    assert(0 <= j < j + 1 && e == marker_entry(requested@[j as int]));
                }
                if exists|q: int| 0 <= q < j + 1 && e == marker_entry(#[trigger] requested@[q]) {
                    let q = choose|q: int| 0 <= q < j + 1 && e == marker_entry(
                        #[trigger] requested@[q],
                    );
                    if q < j {
                        assert(before.contains(e));
                    }
                }
            }
        }
        j = j + 1;
    }
    entries
}

/// The entries, each framed by its length.
fn frame_entries(entries: &Vec<Vec<u8>>) -> (r: Vec<u8>)
    requires
        forall|e: Seq<u8>| #[trigger] byte_strings(entries@).contains(e) ==> e.len() <= u32::MAX,
    ensures
        r@ == framed(byte_strings(entries@)),
{
    let mut marker: Vec<u8> = Vec::new();
    let mut k: usize = 0;
    while k < entries.len()
        invariant
            k <= entries.len(),
            forall|e: Seq<u8>|
                #[trigger] byte_strings(entries@).contains(e) ==> e.len() <= u32::MAX,
            marker@ == framed(byte_strings(entries@).take(k as int)),
        decreases entries.len() - k,
    {
        let ghost taken = byte_strings(entries@).take(k as int);
        proof {
            assert(byte_strings(entries@)[k as int] == entries@[k as int]@);
            assert(byte_strings(entries@).contains(entries@[k as int]@));
        }
        push_be32(&mut marker, entries[k].len() as u32);
        append_bytes(&mut marker, &entries[k]);
        proof {
            let next = byte_strings(entries@).take(k + 1);
            assert(next.drop_last() =~= taken);
            assert(next.last() == entries@[k as int]@);
        }
        k = k + 1;
    }
    proof {
        assert(byte_strings(entries@).take(entries.len() as int) =~= byte_strings(entries@));
    }
    marker
}

/// The marker that records a requirement set: its distinct entries in byte
/// order, each framed by its length. The order in which requirements are
/// listed, and repeats, do not change it.
pub fn required_scripts_marker(requested: &Vec<(Script, IndexedScriptType, u64)>) -> (r: Vec<u8>)
    requires
        forall|j: int| 0 <= j < requested.len() ==> encodable_script(#[trigger] requested@[j].0),
    ensures
        exists|sorted: Seq<Seq<u8>>|
            {
                &&& strictly_sorted(sorted)
                &&& forall|e: Seq<u8>|
                    #[trigger] sorted.contains(e) <==> exists|j: int|
                        0 <= j < requested.len() && e == marker_entry(#[trigger] requested@[j])
                &&& r@ == framed(sorted)
            },
{
    let entries = sorted_marker_entries(requested);
    let r = frame_entries(&entries);
    proof {
        let sorted = byte_strings(entries@);
        assert(strictly_sorted(sorted) && r@ == framed(sorted));
    }
    r
}

/// The store key prefix of per-script coverage records.
pub open spec fn coverage_key_prefix() -> Seq<u8> {
    "FIBER_FFI_SCRIPT_COVERAGE_V2".spec_bytes()
}

/// The store key of a script's coverage record: the prefix, the field
/// byte, and the script hash (CKB BLAKE2b of the serialized script).
pub open spec fn coverage_key(script: Script, script_type: IndexedScriptType) -> Seq<u8> {
    coverage_key_prefix() + seq![field_byte(script_type)] + ckb_blake2b_256(packed_script(script))
}

/// The store key under which a script's coverage is recorded.
pub fn script_coverage_key(script: &Script, script_type: IndexedScriptType) -> (r: Vec<u8>)
    requires
        encodable_script(*script),
    ensures
        r@ == coverage_key(*script, script_type),
{
    let packed = pack_script(&script.code_hash, script.hash_type.to_byte(), &script.args);
    let hash = blake2b_256(&packed);
    let mut key = bytes_of("FIBER_FFI_SCRIPT_COVERAGE_V2");
    key.push(field_byte_of(script_type));
    append_bytes(&mut key, &hash);
    key
}

/// The scripts of a cell output: its lock, and its type if it has one.
#[derive(Clone, Debug)]
pub struct OutputScripts {
    pub lock: Script,
    pub type_: Option<Script>,
}

/// Whether (`script`, `t`) is among the registered subscriptions.
pub open spec fn is_registered(
    registered: Seq<(Script, IndexedScriptType)>,
    script: Script,
    t: IndexedScriptType,
) -> bool {
    exists|i: int|
        0 <= i < registered.len() && script_view(#[trigger] registered[i].0) == script_view(script)
            && registered[i].1 == t
}

fn registered_contains(registered: &Vec<(Script, IndexedScriptType)>, script: &Script, t: IndexedScriptType) -> (r: bool)
    ensures
        r == is_registered(registered@, *script, t),
{
    let mut i: usize = 0;
    while i < registered.len()
        invariant
            i <= registered.len(),
            forall|q: int|
                0 <= q < i ==> !(script_view(#[trigger] registered@[q].0) == script_view(*script)
                    && registered@[q].1 == t),
        decreases registered.len() - i,
    {
        if registered[i].0.same_as(script) && registered[i].1 == t {
            return true;
        }
        i = i + 1;
    }
    false
}

/// Whether an output belongs to a tracked chain: its lock is registered as
/// a lock subscription, or its type script as a type subscription.
pub fn output_matches_registered_scripts(
    output: &OutputScripts,
    registered: &Vec<(Script, IndexedScriptType)>,
) -> (r: bool)
    ensures
        r == (is_registered(registered@, output.lock, IndexedScriptType::Lock) || (
        output.type_ matches Some(t) && is_registered(registered@, t, IndexedScriptType::Type))),
{
    if registered_contains(registered, &output.lock, IndexedScriptType::Lock) {
        return true;
    }
    match &output.type_ {
        Some(t) => registered_contains(registered, t, IndexedScriptType::Type),
        None => false,
    }
}

/// Whether `e` is the marker entry of one of the requirements.
pub open spec fn has_marker_entry(r: Seq<(Script, IndexedScriptType, u64)>, e: Seq<u8>) -> bool {
    exists|i: int| 0 <= i < r.len() && e == marker_entry(#[trigger] r[i])
}

/// The marker records only which requirements there are: two requirement
/// lists with the same entries (in any order, with any repeats) give the
/// same marker.
pub proof fn lemma_marker_depends_only_on_the_requirement_set(
    a: Seq<(Script, IndexedScriptType, u64)>,
    b: Seq<(Script, IndexedScriptType, u64)>,
    marker_a: Seq<u8>,
    marker_b: Seq<u8>,
)
    requires
        forall|e: Seq<u8>|
            #![trigger has_marker_entry(a, e)]
            #![trigger has_marker_entry(b, e)]
            has_marker_entry(a, e) <==> has_marker_entry(b, e),
        exists|sorted: Seq<Seq<u8>>|
            {
                &&& strictly_sorted(sorted)
                &&& forall|e: Seq<u8>|
                    #[trigger] sorted.contains(e) <==> exists|i: int|
                        0 <= i < a.len() && e == marker_entry(#[trigger] a[i])
                &&& marker_a == framed(sorted)
            },
        exists|sorted: Seq<Seq<u8>>|
            {
                &&& strictly_sorted(sorted)
                &&& forall|e: Seq<u8>|
                    #[trigger] sorted.contains(e) <==> exists|j: int|
                        0 <= j < b.len() && e == marker_entry(#[trigger] b[j])
                &&& marker_b == framed(sorted)
            },
    ensures
        marker_a == marker_b,
{
    let sa = choose|sorted: Seq<Seq<u8>>|
        {
            &&& strictly_sorted(sorted)
            &&& forall|e: Seq<u8>|
                #[trigger] sorted.contains(e) <==> exists|i: int|
                    0 <= i < a.len() && e == marker_entry(#[trigger] a[i])
            &&& marker_a == framed(sorted)
        };
    let sb = choose|sorted: Seq<Seq<u8>>|
        {
            &&& strictly_sorted(sorted)
            &&& forall|e: Seq<u8>|
                #[trigger] sorted.contains(e) <==> exists|j: int|
                    0 <= j < b.len() && e == marker_entry(#[trigger] b[j])
            &&& marker_b == framed(sorted)
        };
    assert forall|e: Seq<u8>|
        #![trigger sa.contains(e)]
        #![trigger sb.contains(e)]
        sa.contains(e) <==> sb.contains(e) by {
        assert(sa.contains(e) == has_marker_entry(a, e));
        assert(sb.contains(e) == has_marker_entry(b, e));
    }
    lemma_strictly_sorted_unique(sa, sb);
}

proof fn lemma_be32_injective(m: u32, n: u32)
    requires
        be32(m as nat) == be32(n as nat),
    ensures
        m == n,
{
    let bm = be32(m as nat);
    let bn = be32(n as nat);
    assert(bm[0] == bn[0] && bm[1] == bn[1] && bm[2] == bn[2] && bm[3] == bn[3]);
    assert((m / 0x100_0000) % 256 == (n / 0x100_0000) % 256);
    assert((m / 0x1_0000) % 256 == (n / 0x1_0000) % 256);
    assert((m / 0x100) % 256 == (n / 0x100) % 256);
    assert(m % 256 == n % 256);
    assert(m == n) by (bit_vector)
        requires
            (m / 0x100_0000) % 256 == (n / 0x100_0000) % 256,
            (m / 0x1_0000) % 256 == (n / 0x1_0000) % 256,
            (m / 0x100) % 256 == (n / 0x100) % 256,
            m % 256 == n % 256,
    ;
}

proof fn lemma_framed_prepend(x: Seq<u8>, rest: Seq<Seq<u8>>)
    ensures
        framed(seq![x] + rest) == be32(x.len()) + x + framed(rest),
    decreases rest.len(),
{
    let s = seq![x] + rest;
    if rest.len() == 0 {
        assert(s =~= seq![x]);
        assert(s.drop_last() =~= Seq::<Seq<u8>>::empty());
        assert(s.last() == x);
        assert(framed(Seq::<Seq<u8>>::empty()) == Seq::<u8>::empty());
        assert(framed(s) =~= be32(x.len()) + x);
    } else {
        lemma_framed_prepend(x, rest.drop_last());
        assert(s.drop_last() =~= seq![x] + rest.drop_last());
        assert(s.last() == rest.last());
        assert(framed(s) =~= be32(x.len()) + x + framed(rest));
    }
}

/// Framing is unambiguous: two lists of byte strings shorter than 2^32 with
/// the same framing are the same list.
proof fn lemma_framed_injective(sa: Seq<Seq<u8>>, sb: Seq<Seq<u8>>)
    requires
        forall|i: int| 0 <= i < sa.len() ==> (#[trigger] sa[i]).len() <= u32::MAX,
        forall|i: int| 0 <= i < sb.len() ==> (#[trigger] sb[i]).len() <= u32::MAX,
        framed(sa) == framed(sb),
    ensures
        sa == sb,
    decreases sa.len(),
{
    if sa.len() == 0 && sb.len() == 0 {
        assert(sa =~= sb);
    } else if sa.len() == 0 {
        assert(sb =~= seq![sb[0]] + sb.skip(1));
        lemma_framed_prepend(sb[0], sb.skip(1));
        assert(framed(sb).len() >= 4);
    } else if sb.len() == 0 {
        assert(sa =~= seq![sa[0]] + sa.skip(1));
        lemma_framed_prepend(sa[0], sa.skip(1));
        assert(framed(sa).len() >= 4);
    } else {
        let x = sa[0];
        let y = sb[0];
        assert(sa =~= seq![x] + sa.skip(1));
        assert(sb =~= seq![y] + sb.skip(1));
        lemma_framed_prepend(x, sa.skip(1));
        lemma_framed_prepend(y, sb.skip(1));
        let f = framed(sa);
        assert(f.subrange(0, 4) =~= be32(x.len()));
        assert(f.subrange(0, 4) =~= be32(y.len()));
        lemma_be32_injective(x.len() as u32, y.len() as u32);
        assert(f.subrange(4, 4 + x.len() as int) =~= x);
        assert(f.subrange(4, 4 + y.len() as int) =~= y);
        assert(f.skip(4 + x.len() as int) =~= framed(sa.skip(1)));
        assert(f.skip(4 + y.len() as int) =~= framed(sb.skip(1)));
        lemma_framed_injective(sa.skip(1), sb.skip(1));
        assert(sa =~= sb);
    }
}

/// Whether the marker of `r` is `marker`: the framing of its distinct
/// entries in strict byte order, as `required_scripts_marker` builds it.
pub open spec fn is_marker_of(r: Seq<(Script, IndexedScriptType, u64)>, marker: Seq<u8>) -> bool {
    exists|sorted: Seq<Seq<u8>>|
        {
            &&& strictly_sorted(sorted)
            &&& forall|e: Seq<u8>|
                #[trigger] sorted.contains(e) <==> exists|i: int|
                    0 <= i < r.len() && e == marker_entry(#[trigger] r[i])
            &&& marker == framed(sorted)
        }
}

proof fn lemma_marker_entry_len(r: (Script, IndexedScriptType, u64))
    requires
        encodable_script(r.0),
    ensures
        marker_entry(r).len() <= u32::MAX,
{
    assert(be64(r.2 as nat).len() == 8);
    assert(packed_script(r.0).len() == 53 + r.0.args@.len());
}

proof fn lemma_marker_entries_fit(r: Seq<(Script, IndexedScriptType, u64)>, sorted: Seq<Seq<u8>>)
    requires
        forall|j: int| 0 <= j < r.len() ==> encodable_script(#[trigger] r[j].0),
        forall|e: Seq<u8>|
            #[trigger] sorted.contains(e) <==> exists|i: int|
                0 <= i < r.len() && e == marker_entry(#[trigger] r[i]),
    ensures
        forall|i: int| 0 <= i < sorted.len() ==> (#[trigger] sorted[i]).len() <= u32::MAX,
{
    assert forall|i: int| 0 <= i < sorted.len() implies (#[trigger] sorted[i]).len() <= u32::MAX by {
        assert(sorted.contains(sorted[i]));
        let j = choose|j: int| 0 <= j < r.len() && sorted[i] == marker_entry(#[trigger] r[j]);
        lemma_marker_entry_len(r[j]);
    }
}

proof fn lemma_same_marker_same_entries(
    a: Seq<(Script, IndexedScriptType, u64)>,
    b: Seq<(Script, IndexedScriptType, u64)>,
    marker: Seq<u8>,
)
    requires
        forall|j: int| 0 <= j < a.len() ==> encodable_script(#[trigger] a[j].0),
        forall|j: int| 0 <= j < b.len() ==> encodable_script(#[trigger] b[j].0),
        is_marker_of(a, marker),
        is_marker_of(b, marker),
    ensures
        forall|e: Seq<u8>|
            #![trigger has_marker_entry(a, e)]
            #![trigger has_marker_entry(b, e)]
            has_marker_entry(a, e) <==> has_marker_entry(b, e),
{
    let sa = choose|sorted: Seq<Seq<u8>>|
        {
            &&& strictly_sorted(sorted)
            &&& forall|e: Seq<u8>|
                #[trigger] sorted.contains(e) <==> exists|i: int|
                    0 <= i < a.len() && e == marker_entry(#[trigger] a[i])
            &&& marker == framed(sorted)
        };
    let sb = choose|sorted: Seq<Seq<u8>>|
        {
            &&& strictly_sorted(sorted)
            &&& forall|e: Seq<u8>|
                #[trigger] sorted.contains(e) <==> exists|j: int|
                    0 <= j < b.len() && e == marker_entry(#[trigger] b[j])
            &&& marker == framed(sorted)
        };
    lemma_marker_entries_fit(a, sa);
    lemma_marker_entries_fit(b, sb);
    lemma_framed_injective(sa, sb);
    assert forall|e: Seq<u8>|
        #![trigger has_marker_entry(a, e)]
        #![trigger has_marker_entry(b, e)]
        has_marker_entry(a, e) <==> has_marker_entry(b, e) by {
        assert(sa.contains(e) == has_marker_entry(a, e));
        assert(sb.contains(e) == has_marker_entry(b, e));
    }
}

/// Two requirement lists have the same marker exactly when they have the
/// same marker entries: the marker neither depends on the order or repeats
/// of the requirements nor confuses two different requirement sets.
pub proof fn lemma_marker_identifies_the_requirement_set(
    a: Seq<(Script, IndexedScriptType, u64)>,
    b: Seq<(Script, IndexedScriptType, u64)>,
    marker_a: Seq<u8>,
    marker_b: Seq<u8>,
)
    requires
        forall|j: int| 0 <= j < a.len() ==> encodable_script(#[trigger] a[j].0),
        forall|j: int| 0 <= j < b.len() ==> encodable_script(#[trigger] b[j].0),
        is_marker_of(a, marker_a),
        is_marker_of(b, marker_b),
    ensures
        marker_a == marker_b <==> forall|e: Seq<u8>|
            #![trigger has_marker_entry(a, e)]
            #![trigger has_marker_entry(b, e)]
            has_marker_entry(a, e) <==> has_marker_entry(b, e),
{
    if marker_a == marker_b {
        lemma_same_marker_same_entries(a, b, marker_a);
    }
    if forall|e: Seq<u8>|
        #![trigger has_marker_entry(a, e)]
        #![trigger has_marker_entry(b, e)]
        has_marker_entry(a, e) <==> has_marker_entry(b, e) {
        lemma_marker_depends_only_on_the_requirement_set(a, b, marker_a, marker_b);
    }
}

proof fn lemma_be64_injective(m: u64, n: u64)
    requires
        be64(m as nat) == be64(n as nat),
    ensures
        m == n,
{
    let mh = (m as nat / 0x1_0000_0000) as u32;
    let ml = (m as nat % 0x1_0000_0000) as u32;
    let nh = (n as nat / 0x1_0000_0000) as u32;
    let nl = (n as nat % 0x1_0000_0000) as u32;
    let bm = be64(m as nat);
    let bn = be64(n as nat);
    assert(bm.subrange(0, 4) =~= be32(mh as nat));
    assert(bn.subrange(0, 4) =~= be32(nh as nat));
    assert(bm.subrange(4, 8) =~= be32(ml as nat));
    assert(bn.subrange(4, 8) =~= be32(nl as nat));
    lemma_be32_injective(mh, nh);
    lemma_be32_injective(ml, nl);
}

/// What a requirement is: its script, the field it is indexed by, and its
/// first required block.
pub open spec fn requirement_view(r: (Script, IndexedScriptType, u64)) -> (
    (Seq<u8>, ScriptHashType, Seq<u8>),
    IndexedScriptType,
    u64,
) {
    (script_view(r.0), r.1, r.2)
}

/// A requirement whose script can be recorded in a marker: a 32-byte code
/// hash, a hash type CKB defines, and args within the length fields.
pub open spec fn recordable(r: (Script, IndexedScriptType, u64)) -> bool {
    encodable_script(r.0) && valid_hash_type(r.0.hash_type)
}

/// Different recordable requirements have different marker entries.
pub proof fn lemma_marker_entry_injective(x: (Script, IndexedScriptType, u64), y: (Script, IndexedScriptType, u64))
    requires
        recordable(x),
        recordable(y),
        marker_entry(x) == marker_entry(y),
    ensures
        requirement_view(x) == requirement_view(y),
{
    let e = marker_entry(x);
    let px = packed_script(x.0);
    let py = packed_script(y.0);
    assert(e[0] == field_byte(x.1));
    assert(marker_entry(y)[0] == field_byte(y.1));
    assert(x.1 == y.1);
    assert(e.subrange(1, 9) =~= be64(x.2 as nat));
    assert(marker_entry(y).subrange(1, 9) =~= be64(y.2 as nat));
    lemma_be64_injective(x.2, y.2);
    assert(e.skip(13) =~= px);
    assert(marker_entry(y).skip(13) =~= py);
    assert(px.len() == 53 + x.0.args@.len());
    assert(py.len() == 53 + y.0.args@.len());
    assert(px.subrange(16, 48) =~= x.0.code_hash@);
    assert(py.subrange(16, 48) =~= y.0.code_hash@);
    assert(px[48] == hash_type_byte(x.0.hash_type));
    assert(py[48] == hash_type_byte(y.0.hash_type));
    lemma_hash_type_byte_injective(x.0.hash_type, y.0.hash_type);
    assert(px.skip(53) =~= x.0.args@);
    assert(py.skip(53) =~= y.0.args@);
}

/// Whether the list holds a requirement with this view.
pub open spec fn has_requirement(
    r: Seq<(Script, IndexedScriptType, u64)>,
    v: ((Seq<u8>, ScriptHashType, Seq<u8>), IndexedScriptType, u64),
) -> bool {
    exists|i: int| 0 <= i < r.len() && requirement_view(#[trigger] r[i]) == v
}

proof fn lemma_entries_follow_requirements(
    a: Seq<(Script, IndexedScriptType, u64)>,
    b: Seq<(Script, IndexedScriptType, u64)>,
)
    requires
        forall|v| #[trigger] has_requirement(a, v) ==> has_requirement(b, v),
    ensures
        forall|e: Seq<u8>| #[trigger] has_marker_entry(a, e) ==> has_marker_entry(b, e),
{
    assert forall|e: Seq<u8>| #[trigger] has_marker_entry(a, e) implies has_marker_entry(b, e) by {
        let i = choose|i: int| 0 <= i < a.len() && e == marker_entry(#[trigger] a[i]);
        assert(has_requirement(a, requirement_view(a[i])));
        let j = choose|j: int| 0 <= j < b.len() && requirement_view(#[trigger] b[j]) == requirement_view(a[i]);
        assert(marker_entry(b[j]) == marker_entry(a[i]));
    }
}

proof fn lemma_requirements_follow_entries(
    a: Seq<(Script, IndexedScriptType, u64)>,
    b: Seq<(Script, IndexedScriptType, u64)>,
)
    requires
        forall|j: int| 0 <= j < a.len() ==> recordable(#[trigger] a[j]),
        forall|j: int| 0 <= j < b.len() ==> recordable(#[trigger] b[j]),
        forall|e: Seq<u8>| #[trigger] has_marker_entry(a, e) ==> has_marker_entry(b, e),
    ensures
        forall|v| #[trigger] has_requirement(a, v) ==> has_requirement(b, v),
{
    assert forall|v| #[trigger] has_requirement(a, v) implies has_requirement(b, v) by {
        let i = choose|i: int| 0 <= i < a.len() && requirement_view(#[trigger] a[i]) == v;
        assert(has_marker_entry(a, marker_entry(a[i])));
        let j = choose|j: int| 0 <= j < b.len() && marker_entry(a[i]) == marker_entry(#[trigger] b[j]);
        lemma_marker_entry_injective(a[i], b[j]);
        assert(requirement_view(b[j]) == v);
    }
}

/// Two lists of recordable requirements have the same marker exactly when
/// they hold the same requirements (script, indexed field and first
/// required block), whatever their order and repeats.
pub proof fn lemma_marker_identifies_the_requirements(
    a: Seq<(Script, IndexedScriptType, u64)>,
    b: Seq<(Script, IndexedScriptType, u64)>,
    marker_a: Seq<u8>,
    marker_b: Seq<u8>,
)
    requires
        forall|j: int| 0 <= j < a.len() ==> recordable(#[trigger] a[j]),
        forall|j: int| 0 <= j < b.len() ==> recordable(#[trigger] b[j]),
        is_marker_of(a, marker_a),
        is_marker_of(b, marker_b),
    ensures
        marker_a == marker_b <==> forall|v|
            #![trigger has_requirement(a, v)]
            #![trigger has_requirement(b, v)]
            has_requirement(a, v) <==> has_requirement(b, v),
{
    lemma_marker_identifies_the_requirement_set(a, b, marker_a, marker_b);
    if marker_a == marker_b {
        lemma_requirements_follow_entries(a, b);
        lemma_requirements_follow_entries(b, a);
    }
    if forall|v|
        #![trigger has_requirement(a, v)]
        #![trigger has_requirement(b, v)]
        has_requirement(a, v) <==> has_requirement(b, v) {
        lemma_entries_follow_requirements(a, b);
        lemma_entries_follow_requirements(b, a);
    }
}

} // verus!
