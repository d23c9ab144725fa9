//! Filling one page of exact script matches from a source that only
//! answers prefix queries. The caller fetches and filters; this collector
//! decides how much to ask for next, where to continue, and when to stop.
//! Each request asks for no more than the exact matches still needed, so the
//! returned cursor never skips an exact match that was not returned.
use vstd::prelude::*;

use crate::ckb_script::bytes_eq;
use crate::light_client::rpc_rules::{internal_error, rpc_error_view, RpcError, RpcErrorCode};
use crate::text::owned;

verus! {

/// The state of filling one exact-match page.
#[derive(Clone, Debug)]
pub struct ExactPageCollector {
    limit: u32,
    collected: u64,
    cursor: Option<Vec<u8>>,
    last_cursor: Vec<u8>,
    done: bool,
}

/// What the collector does after a fetched page.
#[derive(Clone, Copy, Debug, PartialEq, Eq, Structural)]
pub enum PageStep {
    /// Ask the source for the next page.
    Continue,
    /// The page is complete.
    Finished,
}

impl ExactPageCollector {
    /// The page size asked for.
    pub closed spec fn spec_limit(&self) -> u32 {
        self.limit
    }

    /// How many exact matches the page holds so far.
    pub closed spec fn spec_collected(&self) -> nat {
        self.collected as nat
    }

    /// Where the next source request starts.
    pub closed spec fn spec_cursor(&self) -> Option<Seq<u8>> {
        match self.cursor {
            Some(c) => Some(c@),
            None => None,
        }
    }

    /// The cursor the page reports.
    pub closed spec fn spec_last_cursor(&self) -> Seq<u8> {
        self.last_cursor@
    }

    /// Whether the source has been exhausted.
    pub closed spec fn spec_done(&self) -> bool {
        self.done
    }

    /// Starts a page of `limit` exact matches after cursor `after`; the page
    /// reports `after` (or an empty cursor) until the source returns data.
    pub fn new(limit: u32, after: Option<Vec<u8>>) -> (r: Self)
        ensures
            r.spec_limit() == limit,
            r.spec_collected() == 0,
            r.spec_cursor() == (match after {
                Some(c) => Some(c@),
                None => None::<Seq<u8>>,
            }),
            r.spec_last_cursor() == (match after {
                Some(c) => c@,
                None => Seq::<u8>::empty(),
            }),
            !r.spec_done(),
    {
        let last_cursor = match &after {
            Some(c) => {
                let copy = c.clone();
                proof {
                    assert(copy@ =~= c@);
                }
                copy
            },
            None => Vec::new(),
        };
        ExactPageCollector { limit, collected: 0, cursor: after, last_cursor, done: false }
    }

    /// The next source request: the number of exact matches still needed and
    /// the cursor to start after; `None` once the page is full or the source
    /// is exhausted.
    pub fn next_request(&self) -> (r: Option<(u32, Option<Vec<u8>>)>)
        ensures
            (self.spec_done() || self.spec_collected() >= self.spec_limit()) ==> r is None,
            !(self.spec_done() || self.spec_collected() >= self.spec_limit()) ==> (r matches Some(
                (n, c),
            ) && n == self.spec_limit() - self.spec_collected() && n > 0 && match c {
                Some(v) => self.spec_cursor() == Some(v@),
                None => self.spec_cursor() is None,
            }),
    {
        if self.done || self.collected >= self.limit as u64 {
            return None;
        }
        let remaining = (self.limit as u64 - self.collected) as u32;
        let cursor = match &self.cursor {
            Some(c) => {
                let copy = c.clone();
                proof {
                    assert(copy@ =~= c@);
                }
                Some(copy)
            },
            None => None,
        };
        Some((remaining, cursor))
    }

    /// Takes in a fetched page: whether it was empty, the cursor it ended
    /// at, and how many of its objects matched exactly. An empty page ends
    /// the collection; otherwise the page's cursor becomes the reported one,
    /// and a cursor that did not move is an internal error.
    pub fn accept_page(&mut self, page_is_empty: bool, next_cursor: Vec<u8>, exact_matches: u32) -> (r:
        Result<PageStep, RpcError>)
        requires
            !old(self).spec_done(),
            old(self).spec_collected() < old(self).spec_limit(),
        ensures
            final(self).spec_limit() == old(self).spec_limit(),
            final(self).spec_collected() == old(self).spec_collected() + exact_matches,
            page_is_empty ==> r == Ok::<PageStep, RpcError>(PageStep::Finished)
                && final(self).spec_done()
                && final(self).spec_last_cursor() == old(self).spec_last_cursor(),
            !page_is_empty ==> final(self).spec_last_cursor() == next_cursor@,
            !page_is_empty && old(self).spec_cursor() == Some(next_cursor@) ==> (r matches Err(e)
                && rpc_error_view(e) == (
                RpcErrorCode::InternalError,
                "Light Client prefix pagination cursor did not advance"@,
                None::<Seq<char>>,
            )),
            !page_is_empty && old(self).spec_cursor() != Some(next_cursor@) ==> (r == Ok::<
                PageStep,
                RpcError,
            >(
                if final(self).spec_collected() >= final(self).spec_limit() {
                    PageStep::Finished
                } else {
                    PageStep::Continue
                },
            ) && !final(self).spec_done() && final(self).spec_cursor() == Some(next_cursor@)),
    {
        self.collected = self.collected + exact_matches as u64;
        if page_is_empty {
            self.done = true;
            return Ok(PageStep::Finished);
        }
        let advanced = match &self.cursor {
            Some(c) => !bytes_eq(c, &next_cursor),
            None => true,
        };
        let copy = next_cursor.clone();
        proof {
            assert(copy@ =~= next_cursor@);
        }
        self.last_cursor = copy;
        if !advanced {
            return Err(internal_error(owned("Light Client prefix pagination cursor did not advance")));
        }
        self.cursor = Some(next_cursor);
        if self.collected >= self.limit as u64 {
            Ok(PageStep::Finished)
        } else {
            Ok(PageStep::Continue)
        }
    }

    /// The cursor the finished page reports.
    pub fn last_cursor(&self) -> (r: Vec<u8>)
        ensures
            r@ == self.spec_last_cursor(),
    {
        let copy = self.last_cursor.clone();
        proof {
            assert(copy@ =~= self.last_cursor@);
        }
        copy
    }
}

} // verus!
