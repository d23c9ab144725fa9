//! Inputs reserved by transactions the gateway has submitted and that are
//! still pending: a second transaction spending a reserved input is refused
//! until the first one leaves the pool.
use vstd::prelude::*;

use crate::ckb_script::bytes_eq;

verus! {

/// A reference to a transaction output: its transaction hash and index.
#[derive(Clone, Debug)]
pub struct OutPoint {
    pub tx_hash: Vec<u8>,
    pub index: u32,
}

/// The comparable contents of an out point.
pub open spec fn out_point_view(p: OutPoint) -> (Seq<u8>, u32) {
    (p.tx_hash@, p.index)
}

/// The owner of each reserved input.
pub open spec fn owners_of(entries: Seq<(OutPoint, Vec<u8>)>) -> Map<(Seq<u8>, u32), Seq<u8>>
    decreases entries.len(),
{
    if entries.len() == 0 {
        Map::empty()
    } else {
        owners_of(entries.drop_last()).insert(
            out_point_view(entries.last().0),
            entries.last().1@,
        )
    }
}

/// No input is listed twice.
pub open spec fn distinct_inputs(entries: Seq<(OutPoint, Vec<u8>)>) -> bool {
    forall|i: int, j: int|
        0 <= i < j < entries.len() ==> out_point_view(entries[i].0) != out_point_view(
            entries[j].0,
        )
}

/// `m` with every input of `inputs` reserved by `owner`.
pub open spec fn reserved(
    m: Map<(Seq<u8>, u32), Seq<u8>>,
    inputs: Seq<OutPoint>,
    owner: Seq<u8>,
) -> Map<(Seq<u8>, u32), Seq<u8>>
    decreases inputs.len(),
{
    if inputs.len() == 0 {
        m
    } else {
        reserved(m, inputs.drop_last(), owner).insert(out_point_view(inputs.last()), owner)
    }
}

/// The first input of `inputs` reserved by a transaction other than
/// `tx_hash`, with that owner.
pub open spec fn first_conflict(
    m: Map<(Seq<u8>, u32), Seq<u8>>,
    inputs: Seq<OutPoint>,
    tx_hash: Seq<u8>,
) -> Option<(OutPoint, Seq<u8>)>
    decreases inputs.len(),
{
    if inputs.len() == 0 {
        None
    } else if m.contains_key(out_point_view(inputs[0])) && m[out_point_view(inputs[0])]
        != tx_hash {
        Some((inputs[0], m[out_point_view(inputs[0])]))
    } else {
        first_conflict(m, inputs.drop_first(), tx_hash)
    }
}

/// Whether entry `e` copies one of the first `n` entries of `entries`.
pub open spec fn copied_from(e: (OutPoint, Vec<u8>), entries: Seq<(OutPoint, Vec<u8>)>, n: int) -> bool {
    exists|b: int|
        0 <= b < n && out_point_view(e.0) == out_point_view(#[trigger] entries[b].0) && e.1@
            == entries[b].1@
}

/// Whether `owner` is one of the listed transactions.
pub open spec fn listed_owner(pending: Seq<Vec<u8>>, owner: Seq<u8>) -> bool {
    exists|q: int| 0 <= q < pending.len() && (#[trigger] pending[q])@ == owner
}

/// Whether some entry of `entries` is for input `p`.
pub open spec fn kept_input(entries: Seq<(OutPoint, Vec<u8>)>, p: OutPoint) -> bool {
    exists|a: int| 0 <= a < entries.len() && out_point_view(#[trigger] entries[a].0) == out_point_view(p)
}

/// Input reservations of pending transactions.
#[derive(Clone, Debug)]
pub struct PendingInputReservations {
    entries: Vec<(OutPoint, Vec<u8>)>,
}

/// An input is reserved exactly when some entry lists it.
proof fn lemma_owners_dom(entries: Seq<(OutPoint, Vec<u8>)>, k: (Seq<u8>, u32))
    ensures
        owners_of(entries).contains_key(k) <==> exists|i: int|
            0 <= i < entries.len() && out_point_view(#[trigger] entries[i].0) == k,
    decreases entries.len(),
{
    if entries.len() > 0 {
        let d = entries.drop_last();
        lemma_owners_dom(d, k);
        if owners_of(d).contains_key(k) {
            let i = choose|i: int| 0 <= i < d.len() && out_point_view(#[trigger] d[i].0) == k;
            assert(out_point_view(entries[i].0) == k);
        }
        if exists|i: int| 0 <= i < entries.len() && out_point_view(#[trigger] entries[i].0) == k {
            let i = choose|i: int|
                0 <= i < entries.len() && out_point_view(#[trigger] entries[i].0) == k;
            if i < entries.len() - 1 {
                assert(out_point_view(d[i].0) == k);
            }
        }
    }
}

/// With distinct inputs, the owner of the input of entry `i` is that
/// entry's owner.
proof fn lemma_owners_at(entries: Seq<(OutPoint, Vec<u8>)>, i: int)
    requires
        distinct_inputs(entries),
        0 <= i < entries.len(),
    ensures
        owners_of(entries)[out_point_view(entries[i].0)] == entries[i].1@,
    decreases entries.len(),
{
    if i < entries.len() - 1 {
        lemma_owners_at(entries.drop_last(), i);
    }
}

/// Replacing the owner of an entry replaces it in the map.
proof fn lemma_owners_update(entries: Seq<(OutPoint, Vec<u8>)>, i: int, e: (OutPoint, Vec<u8>))
    requires
        distinct_inputs(entries),
        0 <= i < entries.len(),
        out_point_view(e.0) == out_point_view(entries[i].0),
    ensures
        owners_of(entries.update(i, e)) == owners_of(entries).insert(out_point_view(e.0), e.1@),
    decreases entries.len(),
{
    let t = entries.update(i, e);
    if i == entries.len() - 1 {
        assert(t.drop_last() =~= entries.drop_last());
        assert(owners_of(t) =~= owners_of(entries).insert(out_point_view(e.0), e.1@));
    } else {
        assert(t.drop_last() =~= entries.drop_last().update(i, e));
        lemma_owners_update(entries.drop_last(), i, e);
        assert(owners_of(t) =~= owners_of(entries).insert(out_point_view(e.0), e.1@));
    }
}

fn same_out_point(a: &OutPoint, b: &OutPoint) -> (r: bool)
    ensures
        r == (out_point_view(*a) == out_point_view(*b)),
{
    a.index == b.index && bytes_eq(&a.tx_hash, &b.tx_hash)
}

fn copy_out_point(p: &OutPoint) -> (r: OutPoint)
    ensures
        out_point_view(r) == out_point_view(*p),
{
    let tx_hash = p.tx_hash.clone();
    proof {
        assert(tx_hash@ =~= p.tx_hash@);
    }
    OutPoint { tx_hash, index: p.index }
}

fn copy_bytes(b: &Vec<u8>) -> (r: Vec<u8>)
    ensures
        r@ == b@,
{
    let r = b.clone();
    proof {
        assert(r@ =~= b@);
    }
    r
}

impl PendingInputReservations {
    /// The owner of each reserved input.
    pub closed spec fn owners(&self) -> Map<(Seq<u8>, u32), Seq<u8>> {
        owners_of(self.entries@)
    }

    /// The reservations are well formed: no input is listed twice.
    pub closed spec fn well_formed(&self) -> bool {
        distinct_inputs(self.entries@)
    }

    /// No reservations.
    pub fn new() -> (r: Self)
        ensures
            r.well_formed(),
            r.owners() == Map::<(Seq<u8>, u32), Seq<u8>>::empty(),
    {
        let r = PendingInputReservations { entries: Vec::new() };
        proof {
            assert(owners_of(r.entries@) =~= Map::<(Seq<u8>, u32), Seq<u8>>::empty());
        }
        r
    }

    fn find(&self, input: &OutPoint) -> (r: Option<usize>)
        ensures
            match r {
                Some(i) => i < self.entries.len() && out_point_view(self.entries@[i as int].0)
                    == out_point_view(*input),
                None => forall|i: int|
                    0 <= i < self.entries.len() ==> out_point_view(
                        #[trigger] self.entries@[i].0,
                    ) != out_point_view(*input),
            },
    {
        let mut i: usize = 0;
        while i < self.entries.len()
            invariant
                i <= self.entries.len(),
                forall|j: int|
                    0 <= j < i ==> out_point_view(#[trigger] self.entries@[j].0) != out_point_view(
                        *input,
                    ),
            decreases self.entries.len() - i,
        {
            if same_out_point(&self.entries[i].0, input) {
                return Some(i);
            }
            i = i + 1;
        }
        None
    }

    /// Reserves every input for transaction `tx_hash`.
    pub fn reserve(&mut self, inputs: &Vec<OutPoint>, tx_hash: &Vec<u8>)
        requires
            old(self).well_formed(),
        ensures
            final(self).well_formed(),
            final(self).owners() == reserved(old(self).owners(), inputs@, tx_hash@),
    {
        let mut k: usize = 0;
        while k < inputs.len()
            invariant
                k <= inputs.len(),
                distinct_inputs(self.entries@),
                owners_of(self.entries@) == reserved(
                    owners_of(old(self).entries@),
                    inputs@.take(k as int),
                    tx_hash@,
                ),
            decreases inputs.len() - k,
        {
            let entry = (copy_out_point(&inputs[k]), copy_bytes(tx_hash));
            proof {
                let t = inputs@.take(k + 1);
                assert(t.drop_last() =~= inputs@.take(k as int));
                assert(t.last() == inputs@[k as int]);
            }
            match self.find(&inputs[k]) {
                Some(i) => {
                    proof {
                        lemma_owners_update(self.entries@, i as int, entry);
                    }
                    self.entries.set(i, entry);
                },
                None => {
                    let ghost before = self.entries@;
                    self.entries.push(entry);
                    proof {
                        assert(self.entries@.drop_last() =~= before);
                    }
                },
            }
            k = k + 1;
        }
        proof {
            assert(inputs@.take(inputs.len() as int) =~= inputs@);
        }
    }

    /// The first input reserved by a transaction other than `tx_hash`, and
    /// its owner.
    pub fn conflicting_owner(&self, inputs: &Vec<OutPoint>, tx_hash: &Vec<u8>) -> (r: Option<
        (OutPoint, Vec<u8>),
    >)
        requires
            self.well_formed(),
        ensures
            match first_conflict(self.owners(), inputs@, tx_hash@) {
                None => r is None,
                Some((p, owner)) => r matches Some((q, o)) && out_point_view(q) == out_point_view(
                    p,
                ) && o@ == owner,
            },
    {
        let ghost m = owners_of(self.entries@);
        let mut k: usize = 0;
        proof {
            assert(inputs@.skip(0) =~= inputs@);
        }
        while k < inputs.len()
            invariant
                k <= inputs.len(),
                m == owners_of(self.entries@),
                distinct_inputs(self.entries@),
                first_conflict(m, inputs@, tx_hash@) == first_conflict(
                    m,
                    inputs@.skip(k as int),
                    tx_hash@,
                ),
            decreases inputs.len() - k,
        {
            let ghost rest = inputs@.skip(k as int);
            proof {
                assert(rest[0] == inputs@[k as int]);
                assert(rest.drop_first() =~= inputs@.skip(k + 1));
                lemma_owners_dom(self.entries@, out_point_view(inputs@[k as int]));
            }
            match self.find(&inputs[k]) {
                Some(i) => {
                    proof {
                        lemma_owners_at(self.entries@, i as int);
                    }
                    if !bytes_eq(&self.entries[i].1, tx_hash) {
                        let owner = copy_bytes(&self.entries[i].1);
                        return Some((copy_out_point(&inputs[k]), owner));
                    }
                },
                None => {},
            }
            k = k + 1;
        }
        None
    }

    /// The owning transaction of every reservation, one entry per reserved
    /// input.
    pub fn owner_hashes(&self) -> (r: Vec<Vec<u8>>)
        requires
            self.well_formed(),
        ensures
            forall|k: (Seq<u8>, u32)|
                #[trigger] self.owners().contains_key(k) ==> exists|i: int|
                    0 <= i < r@.len() && (#[trigger] r@[i])@ == self.owners()[k],
            forall|i: int| 0 <= i < r@.len() ==> self.owners().values().contains(#[trigger] r@[i]@),
    {
        let mut r: Vec<Vec<u8>> = Vec::new();
        let mut i: usize = 0;
        while i < self.entries.len()
            invariant
                i <= self.entries@.len(),
                distinct_inputs(self.entries@),
                r@.len() == i,
                forall|j: int| 0 <= j < i ==> (#[trigger] r@[j])@ == self.entries@[j].1@,
            decreases self.entries@.len() - i,
        {
            r.push(self.entries[i].1.clone());
            i = i + 1;
        }
        proof {
            assert forall|k: (Seq<u8>, u32)| #[trigger] self.owners().contains_key(k) implies exists|j: int|
                0 <= j < r@.len() && (#[trigger] r@[j])@ == self.owners()[k] by {
                lemma_owners_dom(self.entries@, k);
                let j = choose|j: int| 0 <= j < self.entries@.len() && out_point_view(#[trigger] self.entries@[j].0) == k;
                lemma_owners_at(self.entries@, j);
                assert(r@[j]@ == self.owners()[k]);
            }
            assert forall|j: int| 0 <= j < r@.len() implies self.owners().values().contains(#[trigger] r@[j]@) by {
                let k = out_point_view(self.entries@[j].0);
                lemma_owners_dom(self.entries@, k);
                lemma_owners_at(self.entries@, j);
                assert(self.owners().contains_key(k));
                assert(self.owners()[k] == r@[j]@);
            }
        }
        r
    }

    /// Keeps only the reservations whose owner is listed in `pending` (the
    /// transactions still pending in the pool).
    pub fn retain_pending(&mut self, pending: &Vec<Vec<u8>>)
        requires
            old(self).well_formed(),
        ensures
            final(self).well_formed(),
            forall|k: (Seq<u8>, u32)|
                #[trigger] final(self).owners().contains_key(k) <==> (old(self).owners().contains_key(k)
                    && listed_owner(pending@, old(self).owners()[k])),
            forall|k: (Seq<u8>, u32)|
                #[trigger] final(self).owners().contains_key(k) ==> final(self).owners()[k]
                    == old(self).owners()[k],
    {
        let ghost old_entries = self.entries@;
        let mut kept: Vec<(OutPoint, Vec<u8>)> = Vec::new();
        let mut i: usize = 0;
        while i < self.entries.len()
            invariant
                i <= self.entries.len(),
                self.entries@ == old_entries,
                distinct_inputs(old_entries),
                distinct_inputs(kept@),
                forall|a: int|
                    0 <= a < kept.len() ==> copied_from(#[trigger] kept@[a], old_entries, i as int),
                forall|b: int|
                    0 <= b < i ==> (listed_owner(pending@, (#[trigger] old_entries[b]).1@)
                        <==> kept_input(kept@, old_entries[b].0)),
            decreases self.entries.len() - i,
        {
            let mut listed = false;
            let mut j: usize = 0;
            while j < pending.len()
                invariant
                    j <= pending.len(),
                    i < self.entries.len(),
                    listed == exists|q: int|
                        0 <= q < j && (#[trigger] pending@[q])@ == self.entries@[i as int].1@,
                decreases pending.len() - j,
            {
                if bytes_eq(&pending[j], &self.entries[i].1) {
                    listed = true;
                }
                j = j + 1;
            }
            proof {
                assert(listed == listed_owner(pending@, old_entries[i as int].1@));
                // entries copied so far come from before `i`, so none has the input at `i`
                assert forall|a: int| 0 <= a < kept.len() implies out_point_view(
                    #[trigger] kept@[a].0,
                ) != out_point_view(old_entries[i as int].0) by {
                    assert(copied_from(kept@[a], old_entries, i as int));
                    let b = choose|b: int|
                        0 <= b < i && out_point_view(kept@[a].0) == out_point_view(
                            #[trigger] old_entries[b].0,
                        ) && kept@[a].1@ == old_entries[b].1@;
                }
            }
            let ghost before = kept@;
            if listed {
                let entry = (copy_out_point(&self.entries[i].0), copy_bytes(&self.entries[i].1));
                kept.push(entry);
            }
            proof {
                assert forall|a: int| 0 <= a < kept.len() implies copied_from(
                    #[trigger] kept@[a],
                    old_entries,
                    i + 1,
                ) by {
                    if a < before.len() {
                        assert(kept@[a] == before[a]);
                        assert(copied_from(before[a], old_entries, i as int));
                        let b = choose|b: int|
                            0 <= b < i && out_point_view(before[a].0) == out_point_view(
                                #[trigger] old_entries[b].0,
                            ) && before[a].1@ == old_entries[b].1@;
                        assert(0 <= b < i + 1);
                    } else {
                        assert(out_point_view(kept@[a].0) == out_point_view(
                            old_entries[i as int].0,
                        ));
                    }
                }
                assert forall|b: int| 0 <= b < i + 1 implies (listed_owner(
                    pending@,
                    (#[trigger] old_entries[b]).1@,
                ) <==> kept_input(kept@, old_entries[b].0)) by {
                    if b < i {
                        assert(out_point_view(old_entries[b].0) != out_point_view(
                            old_entries[i as int].0,
                        ));
                        if kept_input(before, old_entries[b].0) {
                            let a = choose|a: int|
                                0 <= a < before.len() && out_point_view(#[trigger] before[a].0)
                                    == out_point_view(old_entries[b].0);
                            assert(kept@[a] == before[a]);
                        }
                        if kept_input(kept@, old_entries[b].0) {
                            let a = choose|a: int|
                                0 <= a < kept.len() && out_point_view(#[trigger] kept@[a].0)
                                    == out_point_view(old_entries[b].0);
                            if a < before.len() {
                                assert(kept@[a] == before[a]);
                            }
                        }
                    } else {
                        if listed {
                            assert(out_point_view(kept@[kept.len() - 1].0) == out_point_view(
                                old_entries[b].0,
                            ));
                        } else {
                            if kept_input(kept@, old_entries[b].0) {
                                let a = choose|a: int|
                                    0 <= a < kept.len() && out_point_view(#[trigger] kept@[a].0)
                                        == out_point_view(old_entries[b].0);
                            }
                        }
                    }
                }
                assert(distinct_inputs(kept@));
            }
            i = i + 1;
        }
        proof {
            assert forall|k: (Seq<u8>, u32)|
                #[trigger] owners_of(kept@).contains_key(k) <==> (owners_of(
                    old_entries,
                ).contains_key(k) && listed_owner(pending@, owners_of(old_entries)[k])) by {
                lemma_owners_dom(kept@, k);
                lemma_owners_dom(old_entries, k);
                if owners_of(old_entries).contains_key(k) {
                    let b = choose|b: int|
                        0 <= b < old_entries.len() && out_point_view(#[trigger] old_entries[b].0)
                            == k;
                    lemma_owners_at(old_entries, b);
                    if kept_input(kept@, old_entries[b].0) {
                        let a = choose|a: int|
                            0 <= a < kept.len() && out_point_view(#[trigger] kept@[a].0)
                                == out_point_view(old_entries[b].0);
                    }
                }
                if owners_of(kept@).contains_key(k) {
                    let a = choose|a: int|
                        0 <= a < kept.len() && out_point_view(#[trigger] kept@[a].0) == k;
                    assert(copied_from(kept@[a], old_entries, old_entries.len() as int));
                    let b = choose|b: int|
                        0 <= b < old_entries.len() && out_point_view(kept@[a].0) == out_point_view(
                            #[trigger] old_entries[b].0,
                        ) && kept@[a].1@ == old_entries[b].1@;
                    assert(out_point_view(old_entries[b].0) == k);
                    assert(kept_input(kept@, old_entries[b].0));
                    lemma_owners_at(old_entries, b);
                }
            }
            assert forall|k: (Seq<u8>, u32)| #[trigger] owners_of(kept@).contains_key(k) implies owners_of(
                kept@,
            )[k] == owners_of(old_entries)[k] by {
                lemma_owners_dom(kept@, k);
                let a = choose|a: int|
                    0 <= a < kept.len() && out_point_view(#[trigger] kept@[a].0) == k;
                assert(copied_from(kept@[a], old_entries, old_entries.len() as int));
                let b = choose|b: int|
                    0 <= b < old_entries.len() && out_point_view(kept@[a].0) == out_point_view(
                        #[trigger] old_entries[b].0,
                    ) && kept@[a].1@ == old_entries[b].1@;
                lemma_owners_at(kept@, a);
                lemma_owners_at(old_entries, b);
            }
        }
        self.entries = kept;
    }
}

/// After reserving, every reserved input belongs to the reserving
/// transaction.
proof fn lemma_reserved_owner(
    m: Map<(Seq<u8>, u32), Seq<u8>>,
    inputs: Seq<OutPoint>,
    owner: Seq<u8>,
    i: int,
)
    requires
        0 <= i < inputs.len(),
    ensures
        reserved(m, inputs, owner).contains_key(out_point_view(inputs[i])),
        reserved(m, inputs, owner)[out_point_view(inputs[i])] == owner,
    decreases inputs.len(),
{
    if i < inputs.len() - 1 {
        lemma_reserved_owner(m, inputs.drop_last(), owner, i);
    }
}

/// No input of `xs` conflicts when each is owned by `owner`.
proof fn lemma_no_conflict(m: Map<(Seq<u8>, u32), Seq<u8>>, xs: Seq<OutPoint>, owner: Seq<u8>)
    requires
        forall|i: int|
            0 <= i < xs.len() ==> m.contains_key(out_point_view(#[trigger] xs[i])) && m[out_point_view(
                xs[i],
            )] == owner,
    ensures
        first_conflict(m, xs, owner) is None,
    decreases xs.len(),
{
    if xs.len() > 0 {
        assert(m[out_point_view(xs[0])] == owner);
        assert forall|i: int| 0 <= i < xs.drop_first().len() implies m.contains_key(
            out_point_view(#[trigger] xs.drop_first()[i]),
        ) && m[out_point_view(xs.drop_first()[i])] == owner by {
            assert(xs.drop_first()[i] == xs[i + 1]);
        }
        lemma_no_conflict(m, xs.drop_first(), owner);
    }
}

/// Reservations are idempotent: a transaction never conflicts with the
/// inputs it reserved itself, so submitting it again is not refused.
pub proof fn lemma_reservation_is_idempotent(
    m: Map<(Seq<u8>, u32), Seq<u8>>,
    inputs: Seq<OutPoint>,
    tx_hash: Seq<u8>,
)
    ensures
        first_conflict(reserved(m, inputs, tx_hash), inputs, tx_hash) is None,
{
    assert forall|i: int| 0 <= i < inputs.len() implies reserved(
        m,
        inputs,
        tx_hash,
    ).contains_key(out_point_view(#[trigger] inputs[i])) && reserved(m, inputs, tx_hash)[
        out_point_view(inputs[i])] == tx_hash by {
        lemma_reserved_owner(m, inputs, tx_hash, i);
    }
    lemma_no_conflict(reserved(m, inputs, tx_hash), inputs, tx_hash);
}

/// Once a transaction has reserved its inputs, any other transaction
/// spending the first of them is refused, naming that input and the owner.
pub proof fn lemma_reservation_detects_conflict(
    m: Map<(Seq<u8>, u32), Seq<u8>>,
    inputs: Seq<OutPoint>,
    owner: Seq<u8>,
    other: Seq<u8>,
)
    requires
        inputs.len() > 0,
        owner != other,
    ensures
        first_conflict(reserved(m, inputs, owner), inputs, other) == Some((inputs[0], owner)),
{
    lemma_reserved_owner(m, inputs, owner, 0);
}

} // verus!
