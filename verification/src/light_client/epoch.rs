//! Answering epoch queries from proved headers only: an epoch is either read
//! from a stored header inside it, or, for the cellbase maturity target of
//! the current tip, replaced by a one-block epoch ending at the latest proved
//! mature block.
use vstd::prelude::*;

use crate::text::{owned, push_decimal, push_str, decimal};

verus! {

/// A header whose proof the Light Client has checked: its block number, its
/// packed epoch field and its difficulty target.
#[derive(Clone, Copy, Debug, PartialEq, Eq, Structural)]
pub struct ProvedHeader {
    pub number: u64,
    pub epoch: u64,
    pub compact_target: u32,
}

/// An epoch as the `get_epoch_by_number` RPC describes it.
#[derive(Clone, Copy, Debug, PartialEq, Eq, Structural)]
pub struct EpochView {
    pub number: u64,
    pub start_number: u64,
    pub length: u64,
    pub compact_target: u32,
}

/// The epoch number bits (0..24) of a packed epoch.
pub open spec fn number_bits(v: u64) -> nat {
    v as nat % 0x100_0000
}

/// The block index bits (24..40) of a packed epoch.
pub open spec fn index_bits(v: u64) -> nat {
    (v as nat / 0x100_0000) % 0x1_0000
}

/// The epoch length bits (40..56) of a packed epoch.
pub open spec fn length_bits(v: u64) -> nat {
    (v as nat / 0x100_0000_0000) % 0x1_0000
}

/// The index of a header's epoch as ckb-types reads it
/// (`EpochNumberWithFraction::from_full_value`): a zero length reads as
/// index 0 of a one-block epoch.
pub open spec fn header_index(v: u64) -> nat {
    if length_bits(v) == 0 { 0 } else { index_bits(v) }
}

/// The length of a header's epoch as ckb-types reads it.
pub open spec fn header_length(v: u64) -> nat {
    if length_bits(v) == 0 { 1 } else { length_bits(v) }
}

/// A header's epoch position `number + index / length`, as a numerator over
/// `header_length`.
pub open spec fn header_numer(v: u64) -> nat {
    number_bits(v) * header_length(v) + header_index(v)
}

/// The cellbase maturity as a numerator: zero stays zero, otherwise
/// `number + index / length` over `length_bits`.
pub open spec fn maturity_numer(m: u64) -> nat {
    if m == 0 { 0 } else { number_bits(m) * length_bits(m) + index_bits(m) }
}

/// The denominator of the cellbase maturity.
pub open spec fn maturity_denom(m: u64) -> nat {
    if m == 0 { 1 } else { length_bits(m) }
}

/// The parts of a packed epoch: number, index and length bits.
fn epoch_bits(v: u64) -> (r: (u64, u64, u64))
    ensures
        r.0 == number_bits(v),
        r.1 == index_bits(v),
        r.2 == length_bits(v),
{
    (v % 0x100_0000, (v / 0x100_0000) % 0x1_0000, (v / 0x100_0000_0000) % 0x1_0000)
}

/// Number, index and length of a header's epoch.
fn header_epoch(v: u64) -> (r: (u64, u64, u64))
    ensures
        r.0 == number_bits(v),
        r.1 == header_index(v),
        r.2 == header_length(v),
{
    let (number, index, length) = epoch_bits(v);
    if length == 0 {
        (number, 0, 1)
    } else {
        (number, index, length)
    }
}

/// The epoch of a header: its number and length, and the block that starts
/// it (the header's number less its index, not below zero).
pub open spec fn view_of_header(h: ProvedHeader) -> EpochView {
    EpochView {
        number: number_bits(h.epoch) as u64,
        start_number: if h.number >= header_index(h.epoch) {
            (h.number - header_index(h.epoch)) as u64
        } else {
            0
        },
        length: header_length(h.epoch) as u64,
        compact_target: h.compact_target,
    }
}

/// The epoch a proved header lies in.
pub fn epoch_view_from_header(header: &ProvedHeader) -> (r: EpochView)
    ensures
        r == view_of_header(*header),
{
    let (number, index, length) = header_epoch(header.epoch);
    EpochView {
        number,
        start_number: if header.number >= index { header.number - index } else { 0 },
        length,
        compact_target: header.compact_target,
    }
}

/// The message for an epoch that no proved header represents.
pub open spec fn unrepresented_error(requested: u64) -> Seq<char> {
    "epoch "@ + decimal(requested as nat) + " is not represented by a proved local header"@
}

/// The message for a maturity epoch without a proved mature header.
pub open spec fn no_mature_header_error(requested: u64) -> Seq<char> {
    "no proved local header can establish maturity for epoch "@ + decimal(requested as nat)
}

/// The tip's epoch position less the maturity, as a numerator over
/// `header_length(tip) * maturity_denom(m)` (meaningful when not negative).
pub open spec fn mature_numer(tip: u64, m: u64) -> int {
    header_numer(tip) * maturity_denom(m) - maturity_numer(m) * header_length(tip)
}

/// Whether a header's epoch position is at most the mature position.
pub open spec fn is_mature(h: ProvedHeader, tip: u64, m: u64) -> bool {
    header_numer(h.epoch) * (header_length(tip) * maturity_denom(m)) <= mature_numer(tip, m)
        * header_length(h.epoch)
}

/// Whether header `i` is a latest mature header: mature, no mature header
/// has a higher number, and any later one with the same number is not mature
/// (the last of equal ones is chosen).
pub open spec fn is_latest_mature(headers: Seq<ProvedHeader>, i: int, tip: u64, m: u64) -> bool {
    &&& 0 <= i < headers.len()
    &&& is_mature(headers[i], tip, m)
    &&& forall|j: int|
        0 <= j < headers.len() && is_mature(#[trigger] headers[j], tip, m) ==> headers[j].number
            <= headers[i].number
    &&& forall|j: int|
        i < j < headers.len() && is_mature(#[trigger] headers[j], tip, m) ==> headers[j].number
            < headers[i].number
}

/// Whether a header lies in epoch `requested`.
pub open spec fn in_epoch(h: ProvedHeader, requested: u64) -> bool {
    number_bits(h.epoch) == requested
}

/// Whether the cellbase maturity can be read as a fraction: zero, or a
/// non-zero length.
pub open spec fn readable_maturity(m: u64) -> bool {
    m == 0 || length_bits(m) > 0
}

/// Whether a cellbase maturity can be read as an epoch fraction: zero, or
/// with a non-zero epoch length.
pub fn maturity_is_readable(m: u64) -> (r: bool)
    ensures
        r == readable_maturity(m),
{
    let length = (m / 0x100_0000_0000) % 0x1_0000;
    m == 0 || length > 0
}

/// Answers an epoch query for Fiber. A future epoch is `None`. An epoch
/// with a stored header is that header's epoch (the first such header). Any
/// other epoch must be the maturity target of the tip (tip position less the
/// cellbase maturity, rounded down); it is answered with a one-block epoch
/// at the latest proved mature block. Otherwise the query is refused.
pub fn resolve_epoch_view_for_fiber(
    requested: u64,
    tip: &ProvedHeader,
    cellbase_maturity: u64,
    stored_headers: &Vec<ProvedHeader>,
) -> (r: Result<Option<EpochView>, String>)
    requires
        readable_maturity(cellbase_maturity),
    ensures
        requested > number_bits(tip.epoch) ==> r == Ok::<Option<EpochView>, String>(None),
        requested <= number_bits(tip.epoch) && (exists|i: int|
            0 <= i < stored_headers.len() && in_epoch(#[trigger] stored_headers@[i], requested))
            ==> (exists|i: int|
            0 <= i < stored_headers.len() && in_epoch(#[trigger] stored_headers@[i], requested)
                && (forall|j: int| 0 <= j < i ==> !in_epoch(#[trigger] stored_headers@[j], requested))
                && r == Ok::<Option<EpochView>, String>(Some(view_of_header(stored_headers@[i])))),
        requested <= number_bits(tip.epoch) && (forall|i: int|
            0 <= i < stored_headers.len() ==> !in_epoch(#[trigger] stored_headers@[i], requested))
            ==> {
            if mature_numer(tip.epoch, cellbase_maturity) < 0 || requested != mature_numer(
                tip.epoch,
                cellbase_maturity,
            ) / (header_length(tip.epoch) * maturity_denom(cellbase_maturity)) as int {
                r matches Err(e) && e@ == unrepresented_error(requested)
            } else if forall|j: int|
                0 <= j < stored_headers.len() ==> !is_mature(
                    #[trigger] stored_headers@[j],
                    tip.epoch,
                    cellbase_maturity,
                ) {
                r matches Err(e) && e@ == no_mature_header_error(requested)
            } else {
                exists|i: int|
                    is_latest_mature(stored_headers@, i, tip.epoch, cellbase_maturity) && r
                        == Ok::<Option<EpochView>, String>(
                        Some(
                            EpochView {
                                number: requested,
                                start_number: stored_headers@[i].number,
                                length: 1,
                                compact_target: stored_headers@[i].compact_target,
                            },
                        ),
                    )
            }
        },
{
    let (tip_number, tip_index, tip_length) = header_epoch(tip.epoch);
    if requested > tip_number {
        return Ok(None);
    }
    let mut k: usize = 0;
    while k < stored_headers.len()
        invariant
            k <= stored_headers.len(),
            requested <= number_bits(tip.epoch),
            forall|j: int| 0 <= j < k ==> !in_epoch(#[trigger] stored_headers@[j], requested),
        decreases stored_headers.len() - k,
    {
        let (number, _, _) = epoch_bits(stored_headers[k].epoch);
        if number == requested {
            return Ok(Some(epoch_view_from_header(&stored_headers[k])));
        }
        k = k + 1;
    }
    let (m_number, m_index, m_length) = epoch_bits(cellbase_maturity);
    proof {
        assert(m_number * m_length <= 0xff_ffff * 0xffff) by (nonlinear_arith)
            requires
                m_number < 0x100_0000,
                m_length < 0x1_0000,
        ;
    }
    let (m_numer, m_denom): (u64, u64) = if cellbase_maturity == 0 {
        (0, 1)
    } else {
        (m_number * m_length + m_index, m_length)
    };
    proof {
        assert(tip_number * tip_length <= 0xff_ffff * 0x1_0000) by (nonlinear_arith)
            requires
                tip_number < 0x100_0000,
                tip_length <= 0x1_0000,
        ;
    }
    let tip_numer: u64 = tip_number * tip_length + tip_index;
    proof {
        assert(tip_numer == header_numer(tip.epoch));
        assert(m_numer == maturity_numer(cellbase_maturity));
        assert(m_denom == maturity_denom(cellbase_maturity));
        assert(tip_numer <= 0x100_0000 * 0x1_0000 + 0x1_0000) by (nonlinear_arith)
            requires
                tip_numer == tip_number * tip_length + tip_index,
                tip_number < 0x100_0000,
                tip_length <= 0x1_0000,
                tip_index < 0x1_0000,
        ;
        assert(m_numer <= 0x100_0000 * 0x1_0000 + 0x1_0000) by (nonlinear_arith)
            requires
                m_numer == m_number * m_length + m_index || m_numer == 0,
                m_number < 0x100_0000,
                m_length < 0x1_0000,
                m_index < 0x1_0000,
        ;
    }
    proof {
        assert(tip_numer as u128 * m_denom as u128 <= 0x1_0000_0000_0000_0000) by (nonlinear_arith)
            requires
                tip_numer <= 0x100_0000 * 0x1_0000 + 0x1_0000,
                m_denom <= 0x1_0000,
        ;
        assert(m_numer as u128 * tip_length as u128 <= 0x1_0000_0000_0000_0000) by (
        nonlinear_arith)
            requires
                m_numer <= 0x100_0000 * 0x1_0000 + 0x1_0000,
                tip_length <= 0x1_0000,
        ;
        assert(tip_length as u128 * m_denom as u128 <= 0x1_0000_0000) by (nonlinear_arith)
            requires
                tip_length <= 0x1_0000,
                m_denom <= 0x1_0000,
        ;
    }
    let lhs: u128 = tip_numer as u128 * m_denom as u128;
    let rhs: u128 = m_numer as u128 * tip_length as u128;
    let denom: u128 = tip_length as u128 * m_denom as u128;
    if lhs < rhs {
        let mut m = owned("epoch ");
        push_decimal(&mut m, requested);
        push_str(&mut m, " is not represented by a proved local header");
        return Err(m);
    }
    let numer: u128 = lhs - rhs;
    proof {
        assert(numer == mature_numer(tip.epoch, cellbase_maturity));
        assert(denom > 0) by (nonlinear_arith)
            requires
                denom == tip_length as u128 * m_denom as u128,
                tip_length > 0,
                m_denom > 0,
        ;
    }
    let mature_number: u128 = numer / denom;
    if requested as u128 != mature_number {
        let mut m = owned("epoch ");
        push_decimal(&mut m, requested);
        push_str(&mut m, " is not represented by a proved local header");
        return Err(m);
    }
    let mut best: Option<usize> = None;
    let mut i: usize = 0;
    while i < stored_headers.len()
        invariant
            i <= stored_headers.len(),
            numer == mature_numer(tip.epoch, cellbase_maturity),
            denom == header_length(tip.epoch) * maturity_denom(cellbase_maturity),
            numer <= 0x1_0000_0000_0000_0000,
            denom <= 0x1_0000_0000,
            match best {
                None => forall|j: int|
                    0 <= j < i ==> !is_mature(
                        #[trigger] stored_headers@[j],
                        tip.epoch,
                        cellbase_maturity,
                    ),
                Some(b) => is_latest_mature(
                    stored_headers@.take(i as int),
                    b as int,
                    tip.epoch,
                    cellbase_maturity,
                ),
            },
        decreases stored_headers.len() - i,
    {
        let h = &stored_headers[i];
        let (hn, hi, hl) = header_epoch(h.epoch);
        proof {
            assert(hn * hl <= 0xff_ffff * 0x1_0000) by (nonlinear_arith)
                requires
                    hn < 0x100_0000,
                    hl <= 0x1_0000,
            ;
        }
        let h_numer: u64 = hn * hl + hi;
        proof {
            assert(h_numer == header_numer(h.epoch));
            assert(h_numer <= 0x100_0000 * 0x1_0000 + 0x1_0000) by (nonlinear_arith)
                requires
                    h_numer == hn * hl + hi,
                    hn < 0x100_0000,
                    hl <= 0x1_0000,
                    hi < 0x1_0000,
            ;
            assert(h_numer as u128 * denom <= 0x100_0000_0000_0000_0000_0000_0000) by (
            nonlinear_arith)
                requires
                    h_numer <= 0x100_0000 * 0x1_0000 + 0x1_0000,
                    denom <= 0x1_0000_0000,
            ;
            assert(numer * hl as u128 <= 0x100_0000_0000_0000_0000_0000_0000) by (nonlinear_arith)
                requires
                    numer <= 0x1_0000_0000_0000_0000,
                    hl <= 0x1_0000,
            ;
        }
        let mature = h_numer as u128 * denom <= numer * hl as u128;
        proof {
            assert(mature == is_mature(*h, tip.epoch, cellbase_maturity));
            let t = stored_headers@.take(i + 1);
            assert(t[i as int] == *h);
            assert forall|j: int| 0 <= j < i implies t[j] == stored_headers@[j] by {}
        }
        if mature {
            match best {
                None => {
                    best = Some(i);
                },
                Some(b) => {
                    if stored_headers[b].number <= h.number {
                        best = Some(i);
                    }
                },
            }
        }
        proof {
            let t = stored_headers@.take(i + 1);
            let prev = stored_headers@.take(i as int);
            assert forall|j: int| 0 <= j < i implies t[j] == prev[j] by {}
        }
        i = i + 1;
    }
    proof {
        assert(stored_headers@.take(stored_headers.len() as int) =~= stored_headers@);
    }
    match best {
        None => {
            let mut m = owned("no proved local header can establish maturity for epoch ");
            push_decimal(&mut m, requested);
            Err(m)
        },
        Some(b) => Ok(
            Some(
                EpochView {
                    number: requested,
                    start_number: stored_headers[b].number,
                    length: 1,
                    compact_target: stored_headers[b].compact_target,
                },
            ),
        ),
    }
}

} // verus!
