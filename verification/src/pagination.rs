//! The cursor protocol shared by the paginated registry reads: pages are
//! requested by increasing zero-based index against a fixed page size, all
//! pinned to one block height fetched before the first request; the first
//! page shorter than the page size is the terminal one. A page exactly as
//! long as the page size means "there may be more".

use vstd::prelude::*;

verus! {

/// Entries per page of a paginated registry read.
pub const PAGE_SIZE: u64 = 10000;

/// A cursor over a paginated registry read. Callers ask `next_request` for
/// the page index to fetch — against `PAGE_SIZE` and the pinned block height
/// — and report each fetched page's length back through `accept_page`.
pub struct PageCursor {
    next_page: u64,
    done: bool,
}

impl PageCursor {
    /// The index of the next page to request.
    pub closed spec fn page_index(self) -> u64 {
        self.next_page
    }

    /// Whether the terminal page has been seen.
    pub closed spec fn is_done(self) -> bool {
        self.done
    }

    /// A cursor before any request: the first page has index zero.
    pub fn new() -> (r: PageCursor)
        ensures
            r.page_index() == 0,
            !r.is_done(),
    {
        PageCursor { next_page: 0, done: false }
    }

    /// The page index to request next, or `None` once the terminal page has
    /// been seen. Callers must not assume any maximum page count.
    pub fn next_request(&self) -> (r: Option<u64>)
        ensures
            r is Some <==> !self.is_done(),
            r matches Some(p) ==> p == self.page_index(),
    {
        if self.done {
            None
        } else {
            Some(self.next_page)
        }
    }

    /// Reports the length of the page just fetched. The read is over exactly
    /// when the page is strictly shorter than the page size.
    pub fn accept_page(&mut self, page_len: usize)
        requires
            !old(self).is_done(),
            old(self).page_index() < u64::MAX,
        ensures
            final(self).page_index() == old(self).page_index() + 1,
            final(self).is_done() <==> page_len < PAGE_SIZE,
    {
        self.next_page = self.next_page + 1;
        self.done = page_len < PAGE_SIZE as usize;
    }
}

} // verus!
