//! Heights, the gap between the local ledger and the remote chain, and the
//! pages into which a gap is cut for retrieval.

use vstd::prelude::*;

verus! {

/// The heights that the ledger still lacks: the closed interval from
/// `floor + 1` to `latest`. It is empty where `floor` has reached `latest`.
#[derive(Clone, Copy, Debug, PartialEq, Eq, Structural)]
pub struct SyncGap {
    /// The height just below the gap: the last one that the ledger holds.
    pub floor: u64,
    /// The last height of the gap: the remote chain's finalized height.
    pub latest: u64,
}

/// Whether the ledger has caught up with the remote chain, and as of which
/// height.
#[derive(Clone, Copy, Debug, PartialEq, Eq, Structural)]
pub enum ConsistencyState {
    Behind,
    ConsistentAsOf(u64),
}

/// One bounded, non-empty sub-range of a gap, `oldest..=latest`, with what is
/// needed to find the page after it.
#[derive(Clone, Copy, Debug, PartialEq, Eq, Structural)]
pub struct SyncPage {
    pub oldest: u64,
    pub latest: u64,
    /// The configured page size.
    pub size: u64,
    /// The last height of the gap that the page belongs to.
    pub end: u64,
}

/// The number of heights that a full page holds: the configured size, and one
/// where the configuration says zero.
pub open spec fn page_len(size: u64) -> int {
    if size == 0 {
        1
    } else {
        size as int
    }
}

/// The last height of the page of `len` heights that starts at `start`, in a
/// range that ends at `end`.
pub open spec fn page_last(start: int, end: int, len: int) -> int {
    if start + len - 1 < end {
        start + len - 1
    } else {
        end
    }
}

/// The pages that the heights `start..=end` are cut into, in ascending order,
/// each a pair of its first and its last height.
pub open spec fn pages_of(start: int, end: int, len: int) -> Seq<(int, int)>
    decreases end - start + 1,
{
    if start > end || len < 1 {
        Seq::empty()
    } else {
        seq![(start, page_last(start, end, len))] + pages_of(
            page_last(start, end, len) + 1,
            end,
            len,
        )
    }
}

/// Whether the height `h` lies on a page.
pub open spec fn on_page(page: (int, int), h: int) -> bool {
    page.0 <= h <= page.1
}

impl SyncGap {
    /// The first height of the gap.
    pub open spec fn start(self) -> int {
        self.floor + 1
    }

    /// The last height of the gap.
    pub open spec fn end(self) -> int {
        self.latest as int
    }

    /// A gap never starts more than one height above its end.
    pub open spec fn wf(self) -> bool {
        self.start() <= self.end() + 1
    }

    pub open spec fn empty(self) -> bool {
        self.start() > self.end()
    }

    /// The pages of this gap for a configured page size.
    pub open spec fn pages(self, size: u64) -> Seq<(int, int)> {
        pages_of(self.start(), self.end(), page_len(size))
    }

    /// The gap `[local + 1, remote]`; where `local` is not below `remote`, the
    /// empty gap at `remote`.
    pub fn new(local: u64, remote: u64) -> (gap: Self)
        ensures
            gap.wf(),
            gap.latest == remote,
            local < remote ==> gap.floor == local,
            local >= remote ==> gap.floor == remote,
            gap.empty() <==> local >= remote,
    {
        if local < remote {
            SyncGap { floor: local, latest: remote }
        } else {
            SyncGap { floor: remote, latest: remote }
        }
    }

    pub fn is_empty(&self) -> (b: bool)
        ensures
            b == self.empty(),
    {
        self.floor >= self.latest
    }

    /// The first height of a gap that is not empty.
    pub fn oldest(&self) -> (h: Option<u64>)
        ensures
            self.empty() ==> h is None,
            !self.empty() ==> h == Some(self.start() as u64) && self.start() <= u64::MAX,
    {
        if self.floor >= self.latest {
            None
        } else {
            Some(self.floor + 1)
        }
    }

    pub fn latest(&self) -> (h: u64)
        ensures
            h == self.end(),
    {
        self.latest
    }

    /// The first page of the gap, where the gap is not empty.
    pub fn page(&self, page_size: u64) -> (p: Option<SyncPage>)
        ensures
            self.empty() <==> p is None,
            p matches Some(page) ==> {
                &&& page.wf()
                &&& page.oldest == self.start()
                &&& page.size == page_size
                &&& page.end == self.latest
                &&& page.range() == self.pages(page_size)[0]
                &&& page.rest() == self.pages(page_size).skip(1)
            },
    {
        if self.floor >= self.latest {
            None
        } else {
            let oldest: u64 = self.floor + 1;
            Some(SyncPage::starting_at(oldest, self.latest, page_size))
        }
    }
}

impl SyncPage {
    /// A page lies within its gap and holds at least one height and at most a
    /// full page; only the page that ends the gap may hold less.
    pub open spec fn wf(self) -> bool {
        &&& self.oldest <= self.latest <= self.end
        &&& self.latest == page_last(self.oldest as int, self.end as int, page_len(self.size))
    }

    /// The first and the last height of the page.
    pub open spec fn range(self) -> (int, int) {
        (self.oldest as int, self.latest as int)
    }

    /// The pages that follow this one in its gap.
    pub open spec fn rest(self) -> Seq<(int, int)> {
        pages_of(self.latest + 1, self.end as int, page_len(self.size))
    }

    fn starting_at(oldest: u64, end: u64, size: u64) -> (page: Self)
        requires
            oldest <= end,
        ensures
            page.wf(),
            page.oldest == oldest,
            page.end == end,
            page.size == size,
    {
        let len: u64 = if size == 0 {
            1
        } else {
            size
        };
        let reach: u64 = oldest.saturating_add(len - 1);
        let latest: u64 = if reach < end {
            reach
        } else {
            end
        };
        SyncPage { oldest, latest, size, end }
    }

    pub fn oldest(&self) -> (h: u64)
        ensures
            h == self.oldest,
    {
        self.oldest
    }

    pub fn latest(&self) -> (h: u64)
        ensures
            h == self.latest,
    {
        self.latest
    }

    /// The page after this one, where this one does not end the gap.
    pub fn reduce(self) -> (p: Option<SyncPage>)
        requires
            self.wf(),
        ensures
            self.latest == self.end <==> p is None,
            self.rest().len() == 0 <==> p is None,
            p matches Some(page) ==> {
                &&& page.wf()
                &&& page.size == self.size
                &&& page.end == self.end
                &&& page.oldest == self.latest + 1
                &&& page.range() == self.rest()[0]
                &&& page.rest() == self.rest().skip(1)
            },
    {
        if self.latest >= self.end {
            None
        } else {
            let oldest: u64 = self.latest + 1;
            let page = SyncPage::starting_at(oldest, self.end, self.size);
            proof {
                let rest = self.rest();
                assert(rest.skip(1) =~= page.rest());
            }
            Some(page)
        }
    }
}

/// The gap between a local and a remote height, `[local + 1, remote]`, and
/// the consistency state that goes with it: consistent as of the remote height
/// where the gap is empty, behind otherwise.
pub fn resolve(remote: u64, local: u64) -> (r: (SyncGap, ConsistencyState))
    ensures
        r.0.wf(),
        r.0.latest == remote,
        local < remote ==> r.0.floor == local && !r.0.empty() && r.1 == ConsistencyState::Behind,
        local >= remote ==> r.0.floor == remote && r.0.empty() && r.1
            == ConsistencyState::ConsistentAsOf(remote),
{
    let gap = SyncGap::new(local, remote);
    if local >= remote {
        (gap, ConsistencyState::ConsistentAsOf(remote))
    } else {
        (gap, ConsistencyState::Behind)
    }
}

/// The pages of a range start at its first height, follow one another with
/// no height between them, and end at its last height. Each holds at least
/// one height and at most `len`, and only the last may hold fewer than `len`.
pub proof fn pages_are_consecutive(start: int, end: int, len: int)
    requires
        len >= 1,
    ensures
        pages_of(start, end, len).len() == 0 <==> start > end,
        start <= end ==> pages_of(start, end, len)[0].0 == start,
        start <= end ==> pages_of(start, end, len).last().1 == end,
        forall|i: int|
            0 <= i < pages_of(start, end, len).len() ==> {
                let page = #[trigger] pages_of(start, end, len)[i];
                &&& start <= page.0 <= page.1 <= end
                &&& page.1 - page.0 + 1 <= len
            },
        forall|i: int|
            0 <= i < pages_of(start, end, len).len() - 1 ==> {
                let page = #[trigger] pages_of(start, end, len)[i];
                &&& page.1 - page.0 + 1 == len
                &&& pages_of(start, end, len)[i + 1].0 == page.1 + 1
            },
    decreases end - start + 1,
{
    if start <= end {
        let last = page_last(start, end, len);
        let head = seq![(start, last)];
        let tail = pages_of(last + 1, end, len);
        let all = pages_of(start, end, len);
        pages_are_consecutive(last + 1, end, len);
        assert(all == head + tail);
        assert(all.len() == tail.len() + 1);
        assert(all[0] == (start, last));
        assert forall|i: int| 1 <= i < all.len() implies all[i] == tail[i - 1] by {}
        if tail.len() > 0 {
            assert(all.last() == tail.last());
        }
        assert forall|i: int| 0 <= i < all.len() implies {
            let page = #[trigger] all[i];
            &&& start <= page.0 <= page.1 <= end
            &&& page.1 - page.0 + 1 <= len
        } by {
            if i > 0 {
                assert(all[i] == tail[i - 1]);
            }
        }
        assert forall|i: int| 0 <= i < all.len() - 1 implies {
            let page = #[trigger] all[i];
            &&& page.1 - page.0 + 1 == len
            &&& all[i + 1].0 == page.1 + 1
        } by {
            assert(all[i + 1] == tail[i]);
            if i > 0 {
                assert(all[i] == tail[i - 1]);
            } else {
                assert(tail[0].0 == last + 1);
            }
        }
    }
}

/// Every height of a range lies on exactly one of its pages, and no page
/// holds a height from outside the range.
pub proof fn pages_cover_once(start: int, end: int, len: int, h: int)
    requires
        len >= 1,
    ensures
        start <= h <= end ==> exists|i: int|
            0 <= i < pages_of(start, end, len).len() && on_page(
                #[trigger] pages_of(start, end, len)[i],
                h,
            ),
        forall|i: int, j: int|
            0 <= i < pages_of(start, end, len).len() && 0 <= j < pages_of(start, end, len).len()
                && on_page(#[trigger] pages_of(start, end, len)[i], h) && on_page(
                #[trigger] pages_of(start, end, len)[j],
                h,
            ) ==> i == j,
        forall|i: int|
            0 <= i < pages_of(start, end, len).len() && on_page(
                #[trigger] pages_of(start, end, len)[i],
                h,
            ) ==> start <= h <= end,
    decreases end - start + 1,
{
    if start <= end {
        let last = page_last(start, end, len);
        let tail = pages_of(last + 1, end, len);
        let all = pages_of(start, end, len);
        pages_cover_once(last + 1, end, len, h);
        pages_are_consecutive(last + 1, end, len);
        assert(all == seq![(start, last)] + tail);
        assert(all[0] == (start, last));
        assert forall|i: int| 1 <= i < all.len() implies all[i] == tail[i - 1] by {}
        if start <= h <= end {
            if h <= last {
                assert(on_page(all[0], h));
            } else {
                let k = choose|k: int| 0 <= k < tail.len() && on_page(#[trigger] tail[k], h);
                assert(all[k + 1] == tail[k]);
                assert(on_page(all[k + 1], h));
            }
        }
        assert forall|i: int, j: int|
            0 <= i < all.len() && 0 <= j < all.len() && on_page(#[trigger] all[i], h) && on_page(
                #[trigger] all[j],
                h,
            ) implies i == j by {
            if i > 0 {
                assert(all[i] == tail[i - 1]);
                assert(on_page(tail[i - 1], h));
            }
            if j > 0 {
                assert(all[j] == tail[j - 1]);
                assert(on_page(tail[j - 1], h));
            }
        }
        assert forall|i: int| 0 <= i < all.len() && on_page(#[trigger] all[i], h) implies start
            <= h <= end by {
            if i > 0 {
                assert(all[i] == tail[i - 1]);
                assert(on_page(tail[i - 1], h));
            }
        }
    }
}

} // verus!
