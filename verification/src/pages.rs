use crate::api::WebApi;
use crate::error::Error;
use crate::request::{AuthenticatedRequest, RequestView};
use crate::text::{decimal, decimal_text};
use vstd::prelude::*;

verus! {

/// The most items that an aggregated result set holds.  What the service
/// has beyond them is left out, also where they came on the last page.
pub const PAGED_ITEMS_LIMIT: usize = 200;

/// The page size that the first request asks for.
pub const FIRST_PAGE_LIMIT: usize = 50;

/// What a [`Page`] holds, as plain values.
pub struct PageView<T> {
    pub items: Seq<T>,
    pub limit: int,
    pub offset: int,
    pub total: int,
}

/// One slice of a larger result set, as the service returned it: the items,
/// the page size and the offset that it answers, and the size of the whole
/// set.
#[derive(Debug, PartialEq, Eq)]
pub struct Page<T> {
    pub items: Vec<T>,
    pub limit: usize,
    pub offset: usize,
    pub total: usize,
}

impl<T> View for Page<T> {
    type V = PageView<T>;

    open spec fn view(&self) -> PageView<T> {
        PageView {
            items: self.items@,
            limit: self.limit as int,
            offset: self.offset as int,
            total: self.total as int,
        }
    }
}

/// What an [`AllPages`] holds, as plain values.
pub struct AllPagesView<T> {
    pub results: Seq<T>,
    pub limit: int,
    pub offset: int,
}

/// What a [`Paging`] holds, as plain values.
pub enum PagingView<T> {
    Next(AllPagesView<T>),
    Done(Seq<T>),
}

/// Tells whether another page is asked for once `collected` items of a set
/// of `total` are there: the set is not exhausted and the cap is not reached.
pub open spec fn continues(total: int, collected: int) -> bool {
    total > collected && collected < PAGED_ITEMS_LIMIT
}

impl<T> AllPagesView<T> {
    /// Nothing collected yet; the first page is asked for from the start.
    pub open spec fn start() -> AllPagesView<T> {
        AllPagesView { results: Seq::empty(), limit: FIRST_PAGE_LIMIT as int, offset: 0 }
    }

    /// `base` with the `limit` and `offset` of the page that is due.
    pub open spec fn request(self, base: RequestView) -> RequestView
        recommends
            0 <= self.limit,
            0 <= self.offset,
    {
        base.query("limit"@, decimal_text(self.limit as nat)).query(
            "offset"@,
            decimal_text(self.offset as nat),
        )
    }

    /// The items of `page` go behind those collected.  Then either the next
    /// page is due, of the size that `page` reports and from where `page`
    /// ends by its own account; or the collection is done, with no more than
    /// [`PAGED_ITEMS_LIMIT`] items: what is beyond them is cut off.
    pub open spec fn accept(self, page: PageView<T>) -> PagingView<T> {
        let results = self.results + page.items;
        if continues(page.total, results.len() as int) {
            PagingView::Next(
                AllPagesView { results, limit: page.limit, offset: page.offset + page.limit },
            )
        } else {
            PagingView::Done(capped(results))
        }
    }
}

/// The first [`PAGED_ITEMS_LIMIT`] items of `results`, or all of them where
/// there are no more.
pub open spec fn capped<T>(results: Seq<T>) -> Seq<T> {
    if results.len() > PAGED_ITEMS_LIMIT {
        results.take(PAGED_ITEMS_LIMIT as int)
    } else {
        results
    }
}

/// How the collection goes on after one attempt to load a page: a page is
/// taken in, a failure ends the collection.
pub open spec fn paging_step<T>(state: AllPagesView<T>, loaded: Result<Page<T>, Error>) -> Result<
    PagingView<T>,
    Error,
> {
    match loaded {
        Ok(page) => Ok(state.accept(page@)),
        Err(err) => Err(err),
    }
}

/// The state of collecting a paged result set: the items so far, and the
/// page that is due next.
#[derive(Debug, PartialEq, Eq)]
pub struct AllPages<T> {
    results: Vec<T>,
    limit: usize,
    offset: usize,
}

impl<T> View for AllPages<T> {
    type V = AllPagesView<T>;

    closed spec fn view(&self) -> AllPagesView<T> {
        AllPagesView {
            results: self.results@,
            limit: self.limit as int,
            offset: self.offset as int,
        }
    }
}

/// Where the collection of a paged result set stands after a page.
#[derive(Debug, PartialEq, Eq)]
pub enum Paging<T> {
    /// Another page is due.
    Next(AllPages<T>),
    /// The collection is complete, or cut at [`PAGED_ITEMS_LIMIT`] items.
    Done(Vec<T>),
}

impl<T> View for Paging<T> {
    type V = PagingView<T>;

    open spec fn view(&self) -> PagingView<T> {
        match self {
            Paging::Next(state) => PagingView::Next(state@),
            Paging::Done(results) => PagingView::Done(results@),
        }
    }
}

impl<T> AllPages<T> {
    /// The state before the first page.
    pub fn new() -> (state: AllPages<T>)
        ensures
            state@ == AllPagesView::<T>::start(),
    {
        AllPages { results: Vec::new(), limit: FIRST_PAGE_LIMIT, offset: 0 }
    }

    /// The request for the page that is due: `base` with `limit` and
    /// `offset` added as query parameters.
    pub fn request(&self, base: &AuthenticatedRequest) -> (request: AuthenticatedRequest)
        ensures
            request@ == self@.request(base@),
    {
        let limit = decimal(self.limit);
        let offset = decimal(self.offset);
        base.clone().query("limit", limit.as_str()).query("offset", offset.as_str())
    }

    /// The number of items collected so far.
    pub fn len(&self) -> (len: usize)
        ensures
            len == self@.results.len(),
    {
        self.results.len()
    }

    /// Tells whether `page` can be taken in: where another page would be due
    /// after it, the offset of that page fits the machine's word.
    pub open spec fn admits(&self, page: &Page<T>) -> bool {
        self@.accept(page@) is Next ==> page.offset + page.limit <= usize::MAX
    }

    /// Tests [`AllPages::admits`].
    pub fn can_accept(&self, page: &Page<T>) -> (fits: bool)
        ensures
            fits == self.admits(page),
    {
        let collected = self.results.len() as u128 + page.items.len() as u128;
        if page.total as u128 > collected && collected < PAGED_ITEMS_LIMIT as u128 {
            page.limit <= usize::MAX - page.offset
        } else {
            true
        }
    }
}

/// Pagination.
impl WebApi {
    /// Takes the outcome of loading one page into the collection and decides
    /// how it goes on.
    ///
    /// A failed load ends the collection with that failure.  Otherwise the
    /// items of the page are appended.  Another page is due as long as the
    /// service reports more items than are collected and fewer than
    /// [`PAGED_ITEMS_LIMIT`] are collected; its size and offset come from
    /// what the page itself reports, not from what was asked.  Once no page
    /// is due, the collection is done and holds the first
    /// [`PAGED_ITEMS_LIMIT`] items at most.
    pub fn load_all_pages<T>(state: AllPages<T>, loaded: Result<Page<T>, Error>) -> (result: Result<
        Paging<T>,
        Error,
    >)
        requires
            loaded is Ok ==> state.admits(&loaded->Ok_0),
        ensures
            match result {
                Ok(paging) => Ok::<PagingView<T>, Error>(paging@) == paging_step(state@, loaded),
                Err(err) => Err::<PagingView<T>, Error>(err) == paging_step(state@, loaded),
            },
            result is Ok && result->Ok_0 is Done ==> result->Ok_0->Done_0@.len()
                <= PAGED_ITEMS_LIMIT,
            result is Ok && result->Ok_0 is Next ==> result->Ok_0->Next_0@.results.len()
                < PAGED_ITEMS_LIMIT,
    {
        let mut page = match loaded {
            Ok(page) => page,
            Err(err) => {
                return Err(err);
            },
        };
        let ghost taken = state@.results + page.items@;
        let mut results = state.results;
        results.append(&mut page.items);
        assert(results@ == taken);
        if page.total > results.len() && results.len() < PAGED_ITEMS_LIMIT {
            Ok(
                Paging::Next(
                    AllPages { results, limit: page.limit, offset: page.offset + page.limit },
                ),
            )
        } else {
            results.truncate(PAGED_ITEMS_LIMIT);
            assert(results@ =~= capped(taken));
            Ok(Paging::Done(results))
        }
    }
}

/// Where the collection stands after the pages `pages`, taken in one after
/// the other from `state` on.  Once done, it stays done, and the pages that
/// are left are not looked at.
pub open spec fn collected_from<T>(state: AllPagesView<T>, pages: Seq<PageView<T>>) -> PagingView<T>
    decreases pages.len(),
{
    if pages.len() == 0 {
        PagingView::Next(state)
    } else {
        match state.accept(pages[0]) {
            PagingView::Done(results) => PagingView::Done(results),
            PagingView::Next(next) => collected_from(next, pages.drop_first()),
        }
    }
}

/// Tells whether `pages` are what a service that holds exactly the items
/// `all` sends from the item `from` on, whatever the size of each page: each
/// page reports the size of `all` as the total and holds the items of `all`
/// that follow those of the page before it.
pub open spec fn contiguous<T>(all: Seq<T>, from: int, pages: Seq<PageView<T>>) -> bool
    decreases pages.len(),
{
    pages.len() == 0 || {
        let upto = from + pages[0].items.len();
        &&& pages[0].total == all.len()
        &&& 0 <= from <= upto <= all.len()
        &&& pages[0].items == all.subrange(from, upto)
        &&& contiguous(all, upto, pages.drop_first())
    }
}

/// The number of items that `pages` hold together.
pub open spec fn items_in<T>(pages: Seq<PageView<T>>) -> int
    decreases pages.len(),
{
    if pages.len() == 0 {
        0
    } else {
        pages[0].items.len() + items_in(pages.drop_first())
    }
}

/// Tells whether every page of `pages` holds an item.
pub open spec fn non_empty<T>(pages: Seq<PageView<T>>) -> bool {
    forall|i: int| 0 <= i < pages.len() ==> (#[trigger] pages[i]).items.len() > 0
}

proof fn lemma_items_in_non_empty<T>(pages: Seq<PageView<T>>)
    requires
        non_empty(pages),
    ensures
        items_in(pages) >= pages.len(),
    decreases pages.len(),
{
    if pages.len() > 0 {
        let rest = pages.drop_first();
        assert(pages[0].items.len() > 0);
        assert forall|i: int| 0 <= i < rest.len() implies (#[trigger] rest[i]).items.len() > 0 by {
            assert(rest[i] == pages[i + 1]);
        }
        lemma_items_in_non_empty(rest);
    }
}

proof fn lemma_collected_from<T>(all: Seq<T>, state: AllPagesView<T>, pages: Seq<PageView<T>>)
    requires
        0 <= state.results.len() <= all.len(),
        state.results == all.take(state.results.len() as int),
        state.results.len() < kept(all.len() as int) || state.results.len() == 0,
        contiguous(all, state.results.len() as int, pages),
    ensures
        collected_from(state, pages) is Done ==> collected_from(state, pages)->Done_0 == all.take(
            kept(all.len() as int),
        ),
        pages.len() >= 1 && state.results.len() + items_in(pages) >= kept(all.len() as int)
            ==> collected_from(state, pages) is Done,
    decreases pages.len(),
{
    if pages.len() > 0 {
        let page = pages[0];
        let rest = pages.drop_first();
        let from = state.results.len() as int;
        let upto = from + page.items.len();
        let results = state.results + page.items;
        assert(results =~= all.take(upto));
        if continues(page.total, results.len() as int) {
            let next = AllPagesView {
                results,
                limit: page.limit,
                offset: page.offset + page.limit,
            };
            assert(state.accept(page) == PagingView::Next(next));
            assert(items_in(pages) == page.items.len() + items_in(rest));
            assert(rest.len() == 0 ==> items_in(rest) == 0);
            lemma_collected_from(all, next, rest);
        } else {
            assert(state.accept(page) == PagingView::Done(capped(results)));
            assert(capped(results) =~= all.take(kept(all.len() as int)));
        }
    }
}

/// The cap holds whatever the size of the pages: where a service that holds
/// exactly the items `all` sends them page by page and in order, a finished
/// collection never holds more than [`PAGED_ITEMS_LIMIT`] items.  It holds
/// all of `all` where those are no more than the cap, and exactly the first
/// [`PAGED_ITEMS_LIMIT`] of a longer set.
pub proof fn lemma_done_is_whole_or_cut_at_the_cap<T>(all: Seq<T>, pages: Seq<PageView<T>>)
    requires
        contiguous(all, 0, pages),
        collected_from(AllPagesView::start(), pages) is Done,
    ensures
        collected_from(AllPagesView::start(), pages)->Done_0.len() <= PAGED_ITEMS_LIMIT,
        all.len() <= PAGED_ITEMS_LIMIT ==> collected_from(AllPagesView::start(), pages)->Done_0
            == all,
        all.len() > PAGED_ITEMS_LIMIT ==> collected_from(AllPagesView::start(), pages)->Done_0
            == all.take(PAGED_ITEMS_LIMIT as int),
{
    assert(AllPagesView::<T>::start().results =~= all.take(0));
    lemma_collected_from(all, AllPagesView::start(), pages);
    assert(all.take(all.len() as int) =~= all);
}

/// The collection comes to its end: pages that are sent in order, each with
/// an item in it, finish the collection as soon as they hold as many items
/// together as the collection keeps; as many pages as that always do.
pub proof fn lemma_non_empty_pages_finish<T>(all: Seq<T>, pages: Seq<PageView<T>>)
    requires
        contiguous(all, 0, pages),
        non_empty(pages),
        pages.len() >= 1,
        items_in(pages) >= kept(all.len() as int) || pages.len() >= kept(all.len() as int),
    ensures
        collected_from(AllPagesView::start(), pages) is Done,
{
    assert(AllPagesView::<T>::start().results =~= all.take(0));
    lemma_items_in_non_empty(pages);
    lemma_collected_from(all, AllPagesView::start(), pages);
}

/// `at` moved into the bounds of a sequence of `len` items.
pub open spec fn clip(at: int, len: int) -> int {
    if at < 0 {
        0
    } else if at > len {
        len
    } else {
        at
    }
}

/// The page that a service which holds exactly the items `all` returns when
/// it is asked for `limit` items from `offset`: that slice of `all`, the two
/// numbers as they were asked, and the size of `all`.
pub open spec fn served<T>(all: Seq<T>, limit: int, offset: int) -> PageView<T> {
    PageView {
        items: all.subrange(
            clip(offset, all.len() as int),
            clip(offset + limit, all.len() as int),
        ),
        limit,
        offset,
        total: all.len() as int,
    }
}

/// Where the collection stands after `rounds` requests to a service which
/// holds exactly the items `all`.  Once done, it stays done.
pub open spec fn collected<T>(all: Seq<T>, rounds: nat) -> PagingView<T>
    decreases rounds,
{
    if rounds == 0 {
        PagingView::Next(AllPagesView::start())
    } else {
        match collected(all, (rounds - 1) as nat) {
            PagingView::Done(results) => PagingView::Done(results),
            PagingView::Next(state) => state.accept(served(all, state.limit, state.offset)),
        }
    }
}

/// The number of items that the collection ends with, of a set of `total`.
pub open spec fn kept(total: int) -> int {
    if total <= PAGED_ITEMS_LIMIT {
        total
    } else {
        PAGED_ITEMS_LIMIT as int
    }
}

proof fn lemma_collected<T>(all: Seq<T>, rounds: nat)
    ensures
        collected(all, rounds) == if rounds >= 1 && FIRST_PAGE_LIMIT * rounds >= kept(
            all.len() as int,
        ) {
            PagingView::Done(all.take(kept(all.len() as int)))
        } else {
            PagingView::Next(
                AllPagesView {
                    results: all.take(FIRST_PAGE_LIMIT * rounds),
                    limit: FIRST_PAGE_LIMIT as int,
                    offset: FIRST_PAGE_LIMIT * rounds,
                },
            )
        },
    decreases rounds,
{
    let len = all.len() as int;
    if rounds == 0 {
        assert(all.take(0) =~= Seq::<T>::empty());
    } else {
        let before = (rounds - 1) as nat;
        lemma_collected(all, before);
        if before >= 1 && FIRST_PAGE_LIMIT * before >= kept(len) {
        } else {
            let state = AllPagesView {
                results: all.take(FIRST_PAGE_LIMIT * before),
                limit: FIRST_PAGE_LIMIT as int,
                offset: FIRST_PAGE_LIMIT * before,
            };
            assert(collected(all, before) == PagingView::Next(state));
            let page = served(all, state.limit, state.offset);
            let reach = clip(FIRST_PAGE_LIMIT * rounds, len);
            assert(page.items == all.subrange(FIRST_PAGE_LIMIT * before, reach));
            assert(state.results + page.items =~= all.take(reach));
            assert(collected(all, rounds) == state.accept(page));
        }
    }
}

/// A result set of at most [`PAGED_ITEMS_LIMIT`] items is collected whole
/// and in the service's order: four requests at most bring every item of a
/// service that answers each request with the slice it was asked for.
pub proof fn lemma_small_sets_are_complete<T>(all: Seq<T>, rounds: nat)
    requires
        all.len() <= PAGED_ITEMS_LIMIT,
        rounds >= 4,
    ensures
        collected(all, rounds) == PagingView::Done(all),
{
    lemma_collected(all, rounds);
    assert(all.take(all.len() as int) =~= all);
}

/// A result set of more than [`PAGED_ITEMS_LIMIT`] items is cut at the cap:
/// the collection ends with exactly the first [`PAGED_ITEMS_LIMIT`] items
/// of a service that answers each request with the slice it was asked for.
pub proof fn lemma_large_sets_are_truncated<T>(all: Seq<T>, rounds: nat)
    requires
        all.len() > PAGED_ITEMS_LIMIT,
        rounds >= 4,
    ensures
        collected(all, rounds) == PagingView::Done(all.take(PAGED_ITEMS_LIMIT as int)),
        all.take(PAGED_ITEMS_LIMIT as int).len() == PAGED_ITEMS_LIMIT,
{
    lemma_collected(all, rounds);
}

} // verus!
