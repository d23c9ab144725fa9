//! The base-CKB balance of the funding wallet: its cells are read from the
//! indexer a page at a time and summed here, with every sum checked.
use vstd::prelude::*;

use crate::ckb_encoding::{hex_encode, hex_text};
use crate::readiness::{ckb_capacity_text, format_ckb_capacity, CkbReadiness};
use crate::text::{decimal, owned, push_decimal, push_str};

verus! {

/// Cells requested per indexer page.
pub const CKB_BALANCE_PAGE_SIZE: u32 = 1_000;

/// The running count and capacity of the cells read so far, with the
/// cursor to continue after.
#[derive(Clone, Debug)]
pub struct BalanceTally {
    pub cell_count: u64,
    pub capacity_shannons: u64,
    pub after: Option<Vec<u8>>,
}

/// The count and capacity after adding the cells of `capacities` in order,
/// or the error of the first sum that leaves 64 bits: the count is checked
/// before the capacity of each cell.
pub open spec fn tally(count: nat, total: nat, capacities: Seq<u64>) -> Result<(nat, nat), Seq<char>>
    decreases capacities.len(),
{
    if capacities.len() == 0 {
        Ok((count, total))
    } else {
        match tally(count, total, capacities.drop_last()) {
            Err(e) => Err(e),
            Ok((c, t)) => if c + 1 > u64::MAX {
                Err("CKB wallet cell count overflowed u64"@)
            } else if t + capacities.last() > u64::MAX {
                Err("CKB wallet capacity overflowed u64"@)
            } else {
                Ok((c + 1, (t + capacities.last()) as nat))
            },
        }
    }
}

/// The view of an optional cursor.
pub open spec fn cursor_view(c: Option<Vec<u8>>) -> Option<Seq<u8>> {
    match c {
        Some(v) => Some(v@),
        None => None,
    }
}

impl BalanceTally {
    /// Nothing read yet.
    pub fn new() -> (r: Self)
        ensures
            r.cell_count == 0,
            r.capacity_shannons == 0,
            r.after is None,
    {
        BalanceTally { cell_count: 0, capacity_shannons: 0, after: None }
    }

    /// Adds a page of cells, given by their capacities, that the indexer
    /// returned with `last_cursor`. Returns whether the wallet is fully read:
    /// a page shorter than the page size is the last one. A page that would
    /// continue from the cursor it was read after is an error. On an error
    /// the tally is left as it was.
    pub fn accept_page(&mut self, capacities: &Vec<u64>, last_cursor: Vec<u8>) -> (r: Result<
        bool,
        String,
    >)
        ensures
            match tally(old(self).cell_count as nat, old(self).capacity_shannons as nat, capacities@) {
                Err(m) => r matches Err(e) && e@ == m && cursor_view(final(self).after) == cursor_view(
                    old(self).after,
                ) && final(self).cell_count == old(self).cell_count
                    && final(self).capacity_shannons == old(self).capacity_shannons,
                Ok((c, t)) => if capacities@.len() < CKB_BALANCE_PAGE_SIZE {
                    r == Ok::<bool, String>(true) && final(self).cell_count == c
                        && final(self).capacity_shannons == t && cursor_view(final(self).after)
                        == cursor_view(old(self).after)
                } else if cursor_view(old(self).after) == Some(last_cursor@) {
                    r matches Err(e) && e@ == "CKB wallet cell pagination cursor did not advance"@
                        && cursor_view(final(self).after) == cursor_view(old(self).after)
                        && final(self).cell_count == old(self).cell_count
                        && final(self).capacity_shannons == old(self).capacity_shannons
                } else {
                    r == Ok::<bool, String>(false) && final(self).cell_count == c
                        && final(self).capacity_shannons == t && cursor_view(final(self).after)
                        == Some(last_cursor@)
                },
            },
    {
        let mut count = self.cell_count;
        let mut total = self.capacity_shannons;
        let mut i: usize = 0;
        while i < capacities.len()
            invariant
                i <= capacities@.len(),
                tally(
                    old(self).cell_count as nat,
                    old(self).capacity_shannons as nat,
                    capacities@.take(i as int),
                ) == Ok::<(nat, nat), Seq<char>>((count as nat, total as nat)),
            decreases capacities@.len() - i,
        {
            proof {
                assert(capacities@.take(i + 1).drop_last() =~= capacities@.take(i as int));
            }
            if count == u64::MAX {
                proof {
                    lemma_tally_prefix_error(
                        old(self).cell_count as nat,
                        old(self).capacity_shannons as nat,
                        capacities@,
                        i + 1,
                    );
                }
                return Err(owned("CKB wallet cell count overflowed u64"));
            }
            if total > u64::MAX - capacities[i] {
                proof {
                    lemma_tally_prefix_error(
                        old(self).cell_count as nat,
                        old(self).capacity_shannons as nat,
                        capacities@,
                        i + 1,
                    );
                }
                return Err(owned("CKB wallet capacity overflowed u64"));
            }
            count = count + 1;
            total = total + capacities[i];
            i = i + 1;
        }
        proof {
            assert(capacities@.take(capacities@.len() as int) =~= capacities@);
        }
        if capacities.len() < CKB_BALANCE_PAGE_SIZE as usize {
            self.cell_count = count;
            self.capacity_shannons = total;
            return Ok(true);
        }
        let repeated = match &self.after {
            Some(previous) => crate::ckb_script::bytes_eq(previous, &last_cursor),
            None => false,
        };
        if repeated {
            return Err(owned("CKB wallet cell pagination cursor did not advance"));
        }
        self.cell_count = count;
        self.capacity_shannons = total;
        self.after = Some(last_cursor);
        Ok(false)
    }
}

/// An error in a prefix of the capacities is the error of the whole list.
proof fn lemma_tally_prefix_error(count: nat, total: nat, capacities: Seq<u64>, n: int)
    requires
        0 <= n <= capacities.len(),
        tally(count, total, capacities.take(n)) is Err,
    ensures
        tally(count, total, capacities) == tally(count, total, capacities.take(n)),
    decreases capacities.len() - n,
{
    if n < capacities.len() {
        assert(capacities.take(n + 1).drop_last() =~= capacities.take(n));
        lemma_tally_prefix_error(count, total, capacities, n + 1);
    } else {
        assert(capacities.take(n) =~= capacities);
    }
}

/// The balance reported for the funding wallet.
#[derive(Clone, Debug)]
pub struct CkbBalance {
    pub ready: bool,
    pub mode: &'static str,
    pub address: String,
    pub lock_args: String,
    pub tip_block_number: Option<u64>,
    pub indexed_block_number: Option<u64>,
    pub lag: Option<u64>,
    pub cell_count: u64,
    pub capacity_shannons: String,
    pub capacity_ckb: String,
    pub scope: &'static str,
}

/// The balance report of the wallet at `address` with lock args
/// `lock_args`, from the cells read and the backend's readiness: the
/// capacity in shannons as a decimal and in CKB with eight decimals, and
/// the scope `base_ckb_only` (cells without type script or data).
pub fn ckb_balance(
    readiness: &CkbReadiness,
    address: String,
    lock_args: &Vec<u8>,
    tally: &BalanceTally,
) -> (b: CkbBalance)
    ensures
        b.ready == readiness.ready,
        b.mode == readiness.mode,
        b.address == address,
        b.lock_args@ == "0x"@ + hex_text(lock_args@),
        b.tip_block_number == readiness.tip_block_number,
        b.indexed_block_number == readiness.indexed_block_number,
        b.lag == readiness.lag,
        b.cell_count == tally.cell_count,
        b.capacity_shannons@ == decimal(tally.capacity_shannons as nat),
        b.capacity_ckb@ == ckb_capacity_text(tally.capacity_shannons as nat),
        b.scope@ == "base_ckb_only"@,
{
    let mut args = owned("0x");
    let digits = hex_encode(lock_args);
    push_str(&mut args, digits.as_str());
    let mut shannons = String::new();
    push_decimal(&mut shannons, tally.capacity_shannons);
    CkbBalance {
        ready: readiness.ready,
        mode: readiness.mode,
        address,
        lock_args: args,
        tip_block_number: readiness.tip_block_number,
        indexed_block_number: readiness.indexed_block_number,
        lag: readiness.lag,
        cell_count: tally.cell_count,
        capacity_shannons: shannons,
        capacity_ckb: format_ckb_capacity(tally.capacity_shannons),
        scope: "base_ckb_only",
    }
}

} // verus!
