//! Page envelopes and the walk over the pages of one result.
//!
//! A walk starts with the first page of a result. Each page that arrives is
//! handed to `accept`, which reports the page's usage to the credit tracker
//! and adds the page to what was collected before. `next_url` then says
//! whether another page is to be fetched, and from where. Fetching is the
//! caller's part.

use vstd::prelude::*;
use crate::credits::{AccountInfo, CreditTracker};
use crate::query::text_of;

verus! {

/// Navigation links for paginated responses.
#[derive(Debug, Clone)]
pub struct PaginationLinks {
    pub first: Option<String>,
    pub next: Option<String>,
    pub prev: Option<String>,
    pub last: Option<String>,
}

/// Paginated API response wrapper (for search endpoints).
#[derive(Debug, Clone)]
pub struct PaginatedResponse<T> {
    pub items: Vec<T>,
    pub total: u64,
    pub limit: u64,
    pub offset: u64,
    pub links: PaginationLinks,
    pub account: Option<AccountInfo>,
}

/// Paginated response for market metrics (includes parcl_id at top level).
#[derive(Debug, Clone)]
pub struct MetricsResponse<T> {
    pub parcl_id: i64,
    pub items: Vec<T>,
    pub total: u64,
    pub limit: u64,
    pub offset: u64,
    pub links: PaginationLinks,
    pub account: Option<AccountInfo>,
}

/// Paginated response for queries over several markets; the items carry
/// their own market identifiers.
#[derive(Debug, Clone)]
pub struct BatchMetricsResponse<T> {
    pub items: Vec<T>,
    pub total: u64,
    pub limit: u64,
    pub offset: u64,
    pub links: PaginationLinks,
    pub account: Option<AccountInfo>,
}

/// The navigation links of a page, as texts.
pub struct Links {
    pub first: Option<Seq<char>>,
    pub next: Option<Seq<char>>,
    pub prev: Option<Seq<char>>,
    pub last: Option<Seq<char>>,
}

/// One page of a result, or several pages collected into one.
pub struct Page<T> {
    /// The market of the page, where the envelope names one.
    pub parcl_id: Option<i64>,
    /// The items, in the order in which the server sent them.
    pub items: Seq<T>,
    pub total: u64,
    pub limit: u64,
    pub offset: u64,
    pub links: Links,
    pub account: Option<AccountInfo>,
}

impl View for PaginationLinks {
    type V = Links;

    open spec fn view(&self) -> Links {
        Links {
            first: text_of(self.first),
            next: text_of(self.next),
            prev: text_of(self.prev),
            last: text_of(self.last),
        }
    }
}

impl<T> View for PaginatedResponse<T> {
    type V = Page<T>;

    open spec fn view(&self) -> Page<T> {
        Page {
            parcl_id: None,
            items: self.items@,
            total: self.total,
            limit: self.limit,
            offset: self.offset,
            links: self.links@,
            account: self.account,
        }
    }
}

impl<T> View for MetricsResponse<T> {
    type V = Page<T>;

    open spec fn view(&self) -> Page<T> {
        Page {
            parcl_id: Some(self.parcl_id),
            items: self.items@,
            total: self.total,
            limit: self.limit,
            offset: self.offset,
            links: self.links@,
            account: self.account,
        }
    }
}

impl<T> View for BatchMetricsResponse<T> {
    type V = Page<T>;

    open spec fn view(&self) -> Page<T> {
        Page {
            parcl_id: None,
            items: self.items@,
            total: self.total,
            limit: self.limit,
            offset: self.offset,
            links: self.links@,
            account: self.account,
        }
    }
}

impl Default for PaginationLinks {
    fn default() -> (links: Self)
        ensures
            links.first is None,
            links.next is None,
            links.prev is None,
            links.last is None,
    {
        PaginationLinks { first: None, next: None, prev: None, last: None }
    }
}

impl<T> Page<T> {
    /// What was collected so far, with one more page added: the new page's
    /// items follow the collected ones, its links replace the earlier
    /// links, and everything else stays as the first page gave it.
    pub open spec fn absorb(self, next: Page<T>) -> Page<T> {
        Page { items: self.items + next.items, links: next.links, ..self }
    }

    /// The address of the page to fetch after this one: the `next` link,
    /// when pages are followed and there is one.
    pub open spec fn follow(self, auto_paginate: bool) -> Option<Seq<char>> {
        if auto_paginate {
            self.links.next
        } else {
            None
        }
    }
}

/// The result of a walk over `pages`, taken in order; `pages` is not empty.
pub open spec fn collected<T>(pages: Seq<Page<T>>) -> Page<T>
    recommends
        pages.len() > 0,
    decreases pages.len(),
{
    if pages.len() <= 1 {
        pages[0]
    } else {
        collected(pages.drop_last()).absorb(pages.last())
    }
}

/// The items of all `pages`, page after page.
pub open spec fn all_items<T>(pages: Seq<Page<T>>) -> Seq<T>
    decreases pages.len(),
{
    if pages.len() == 0 {
        Seq::empty()
    } else {
        all_items(pages.drop_last()) + pages.last().items
    }
}

/// The usage metadata of `pages`, page after page.
pub open spec fn accounts<T>(pages: Seq<Page<T>>) -> Seq<Option<AccountInfo>> {
    pages.map_values(|page: Page<T>| page.account)
}

/// The number of pages that a walk fetches from a server that answers the
/// requests of the walk with `pages`, in order: the walk goes on after a
/// page only while pages are followed and the page has a `next` link.
pub open spec fn pages_fetched<T>(pages: Seq<Page<T>>, auto_paginate: bool) -> nat
    decreases pages.len(),
{
    if pages.len() == 0 {
        0
    } else if pages[0].follow(auto_paginate) is Some {
        1 + pages_fetched(pages.drop_first(), auto_paginate)
    } else {
        1
    }
}

fn next_link(links: &PaginationLinks, auto_paginate: bool) -> (url: Option<&str>)
    ensures
        crate::query::str_of(url) == (if auto_paginate {
            links@.next
        } else {
            None
        }),
{
    if auto_paginate {
        match &links.next {
            Some(next) => Some(next.as_str()),
            None => None,
        }
    } else {
        None
    }
}

fn extend<T>(items: &mut Vec<T>, more: Vec<T>)
    ensures
        final(items)@ == old(items)@ + more@,
{
    let mut more = more;
    items.append(&mut more);
}

impl<T> PaginatedResponse<T> {
    /// The address of the page to fetch next, if the walk goes on.
    pub fn next_url(&self, auto_paginate: bool) -> (url: Option<&str>)
        ensures
            crate::query::str_of(url) == self@.follow(auto_paginate),
    {
        next_link(&self.links, auto_paginate)
    }

    /// Takes a page that has arrived: reports its usage to the tracker and
    /// adds it to what was collected before, if anything.
    pub fn accept(collected: Option<Self>, page: Self, tracker: &mut CreditTracker) -> (result: Self)
        ensures
            result@ == (match collected {
                Some(earlier) => earlier@.absorb(page@),
                None => page@,
            }),
            *final(tracker) == old(tracker).recorded(page.account),
    {
        tracker.record(&page.account);
        match collected {
            Some(earlier) => {
                let mut result = earlier;
                extend(&mut result.items, page.items);
                result.links = page.links;
                result
            },
            None => page,
        }
    }
}

impl<T> MetricsResponse<T> {
    /// The address of the page to fetch next, if the walk goes on.
    pub fn next_url(&self, auto_paginate: bool) -> (url: Option<&str>)
        ensures
            crate::query::str_of(url) == self@.follow(auto_paginate),
    {
        next_link(&self.links, auto_paginate)
    }

    /// Takes a page that has arrived: reports its usage to the tracker and
    /// adds it to what was collected before, if anything.
    pub fn accept(collected: Option<Self>, page: Self, tracker: &mut CreditTracker) -> (result: Self)
        ensures
            result@ == (match collected {
                Some(earlier) => earlier@.absorb(page@),
                None => page@,
            }),
            *final(tracker) == old(tracker).recorded(page.account),
    {
        tracker.record(&page.account);
        match collected {
            Some(earlier) => {
                let mut result = earlier;
                extend(&mut result.items, page.items);
                result.links = page.links;
                result
            },
            None => page,
        }
    }
}

impl<T> BatchMetricsResponse<T> {
    /// The address of the page to fetch next, if the walk goes on. The
    /// first page of a batch answers a POST; the pages that follow are
    /// fetched from this address with GET.
    pub fn next_url(&self, auto_paginate: bool) -> (url: Option<&str>)
        ensures
            crate::query::str_of(url) == self@.follow(auto_paginate),
    {
        next_link(&self.links, auto_paginate)
    }

    /// Takes a page that has arrived: reports its usage to the tracker and
    /// adds it to what was collected before, if anything.
    pub fn accept(collected: Option<Self>, page: Self, tracker: &mut CreditTracker) -> (result: Self)
        ensures
            result@ == (match collected {
                Some(earlier) => earlier@.absorb(page@),
                None => page@,
            }),
            *final(tracker) == old(tracker).recorded(page.account),
    {
        tracker.record(&page.account);
        match collected {
            Some(earlier) => {
                let mut result = earlier;
                extend(&mut result.items, page.items);
                result.links = page.links;
                result
            },
            None => page,
        }
    }
}

/// What a walk collects from `pages`: the items of all pages in the order
/// of the pages, the links of the last page, and the totals, the usage
/// metadata and the market of the first.
pub proof fn lemma_collected<T>(pages: Seq<Page<T>>)
    requires
        pages.len() > 0,
    ensures
        collected(pages).items == all_items(pages),
        collected(pages).links == pages.last().links,
        collected(pages).parcl_id == pages[0].parcl_id,
        collected(pages).total == pages[0].total,
        collected(pages).limit == pages[0].limit,
        collected(pages).offset == pages[0].offset,
        collected(pages).account == pages[0].account,
    decreases pages.len(),
{
    if pages.len() == 1 {
        assert(all_items(pages.drop_last()) =~= Seq::<T>::empty());
        assert(all_items(pages) =~= pages[0].items);
    } else {
        lemma_collected(pages.drop_last());
    }
}

/// Where every page but the last has a `next` link and the last has none,
/// a walk that follows pages fetches every page, once each, and ends with
/// the items of all pages in the order in which they were fetched, and
/// with no `next` link.
pub proof fn lemma_walk_collects_every_page<T>(pages: Seq<Page<T>>)
    requires
        pages.len() > 0,
        forall|i: int| 0 <= i < pages.len() - 1 ==> (#[trigger] pages[i]).links.next is Some,
        pages.last().links.next is None,
    ensures
        pages_fetched(pages, true) == pages.len(),
        collected(pages.take(pages_fetched(pages, true) as int)).items == all_items(pages),
        collected(pages.take(pages_fetched(pages, true) as int)).links.next is None,
{
    lemma_pages_fetched(pages);
    assert(pages.take(pages.len() as int) =~= pages);
    lemma_collected(pages);
}

proof fn lemma_pages_fetched<T>(pages: Seq<Page<T>>)
    requires
        pages.len() > 0,
        forall|i: int| 0 <= i < pages.len() - 1 ==> (#[trigger] pages[i]).links.next is Some,
        pages.last().links.next is None,
    ensures
        pages_fetched(pages, true) == pages.len(),
    decreases pages.len(),
{
    if pages.len() > 1 {
        let rest = pages.drop_first();
        assert(pages[0].links.next is Some);
        assert forall|i: int| 0 <= i < rest.len() - 1 implies (#[trigger] rest[i]).links.next
            is Some by {
            assert(rest[i] == pages[i + 1]);
        }
        assert(rest.last() == pages.last());
        lemma_pages_fetched(rest);
    }
}

/// A walk fetches exactly one page where the first page has no `next`
/// link, and also where pages are not followed; its result is then that
/// page as it came.
pub proof fn lemma_single_page<T>(pages: Seq<Page<T>>, auto_paginate: bool)
    requires
        pages.len() > 0,
        !auto_paginate || pages[0].links.next is None,
    ensures
        pages_fetched(pages, auto_paginate) == 1,
        collected(pages.take(pages_fetched(pages, auto_paginate) as int)) == pages[0],
{
}

/// A walk reports the usage of every page that it fetches to the tracker:
/// after the walk the session's count of used credits is its start plus
/// the sum of what the pages reported, wrapped around at the bounds of 64
/// bits.
pub proof fn lemma_walk_records_every_page<T>(start: CreditTracker, pages: Seq<Page<T>>)
    ensures
        start.recorded_all(accounts(pages)).session_credits_used == crate::credits::wrapped(
            start.session_credits_used + crate::credits::total_credits_used(accounts(pages)),
        ),
{
    crate::credits::lemma_no_update_is_lost(start, accounts(pages));
}

} // verus!
