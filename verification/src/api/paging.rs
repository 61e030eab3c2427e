//! Listings that the server hands out page by page.

use crate::api::reply::{settle, settled, Body, Reply, STATUS_OK};
use crate::api::schema::PagedSchemaWrapper;
use crate::api::text::{decimal_digits, unsigned_decimal};
use crate::api::wire::{Outgoing, OutgoingView};
use crate::api::ApiError;
use vstd::prelude::*;
use vstd::string::*;

verus! {

/// A listing in progress: the request that every page is asked for with, the
/// number of the page to ask for next, and the items of the pages before it.
pub struct Pagination<T> {
    /// The request for the listing, without the page parameter.
    pub base: Outgoing,
    /// The page to ask for next. The first page is page 1.
    pub page: usize,
    /// The items received so far, in the order of their pages.
    pub results: Vec<T>,
}

/// What a page does to a listing.
pub enum Step<T> {
    /// The listing goes on with the next page.
    More(Pagination<T>),
    /// The listing has ended: with all its items, or with the failure of one
    /// page, which discards the pages before it.
    Done(Result<Vec<T>, ApiError>),
}

/// The request for page `page` of a listing: the listing's request with the
/// parameter `page` added at the end of its query.
pub open spec fn page_request(base: OutgoingView, page: nat) -> OutgoingView {
    let earlier = match base.query {
        Some(pairs) => pairs,
        None => Seq::empty(),
    };
    OutgoingView {
        method: base.method,
        url: base.url,
        headers: base.headers,
        query: Some(earlier.push(("page"@, decimal_digits(page)))),
        body: base.body,
    }
}

/// Whether the page numbered `page` is the last one to ask for, given the
/// number of pages that the server reported with it.
pub open spec fn is_last_page(page: nat, pages: nat) -> bool {
    page >= pages
}

/// What a reply makes of a listing, in terms of the listing's page number
/// and items alone.
pub ghost enum Turn<T> {
    /// The listing goes on: with this page next, holding these items.
    More { page: nat, gathered: Seq<T> },
    /// The listing has ended.
    Done(Result<Seq<T>, ApiError>),
}

/// The turn that a listing takes when the request for page `page`, made
/// while holding the items `gathered`, is answered by `reply`. A page that
/// arrived adds its items; the listing then ends if the page's number has
/// reached the number of pages reported with it, and goes on with the next
/// page otherwise. Any other reply ends the listing with the error it stands
/// for.
pub open spec fn turn<T>(page: nat, gathered: Seq<T>, reply: Reply<PagedSchemaWrapper<Vec<T>>>)
    -> Turn<T> {
    match settled(reply) {
        Err(error) => Turn::Done(Err(error)),
        Ok(envelope) => {
            let all = gathered + envelope.data@;
            if is_last_page(page, envelope.pages as nat) {
                Turn::Done(Ok(all))
            } else {
                Turn::More { page: page + 1, gathered: all }
            }
        },
    }
}

impl<T> Pagination<T> {
    /// Whether this is the listing asked for with `base` that has yet to
    /// ask for its first page.
    pub open spec fn starts(&self, base: OutgoingView) -> bool {
        &&& self.base@ == base
        &&& self.page == 1
        &&& self.results@ == Seq::<T>::empty()
    }

    /// A listing that has yet to ask for its first page.
    pub fn new(base: Outgoing) -> (listing: Self)
        ensures
            listing.base == base,
            listing.starts(base@),
    {
        Pagination { base, page: 1, results: Vec::new() }
    }

    /// The request for the page that the listing asks for next.
    pub fn request(&self) -> (outgoing: Outgoing)
        ensures
            outgoing@ == page_request(self.base@, self.page as nat),
    {
        let copy = self.base.clone();
        let mut query = match copy.query {
            Some(pairs) => pairs,
            None => Vec::new(),
        };
        let ghost earlier = match self.base@.query {
            Some(pairs) => pairs,
            None => Seq::empty(),
        };
        assert(query.deep_view() =~= earlier);
        query.push((String::from_str("page"), unsigned_decimal(self.page as u64)));
        assert(query.deep_view() =~= earlier.push(("page"@, decimal_digits(self.page as nat))));
        Outgoing {
            method: copy.method,
            url: copy.url,
            headers: copy.headers,
            query: Some(query),
            body: copy.body,
        }
    }

    /// Takes in the reply to the request for the current page, and takes the
    /// turn that the reply calls for.
    pub fn absorb(self, reply: Reply<PagedSchemaWrapper<Vec<T>>>) -> (step: Step<T>)
        ensures
            match turn(self.page as nat, self.results@, reply) {
                Turn::More { page, gathered } => {
                    &&& step matches Step::More(next)
                    &&& next.base == self.base
                    &&& next.page == page
                    &&& next.results@ == gathered
                },
                Turn::Done(Ok(all)) => {
                    &&& step matches Step::Done(Ok(items))
                    &&& items@ == all
                },
                Turn::Done(Err(error)) => step == Step::<T>::Done(Err(error)),
            },
    {
        match settle(reply) {
            Err(error) => Step::Done(Err(error)),
            Ok(envelope) => {
                let mut results = self.results;
                let mut items = envelope.data;
                results.append(&mut items);
                if self.page >= envelope.pages as usize {
                    Step::Done(Ok(results))
                } else {
                    Step::More(Pagination { base: self.base, page: self.page + 1, results })
                }
            },
        }
    }
}

/// How a listing has gone after a number of replies.
pub ghost enum Ending<T> {
    /// The replies ran out before the listing ended.
    Unfinished,
    /// The listing ended: with all its items, or with the failure of a page.
    Finished(Result<Seq<T>, ApiError>),
}

/// The course of a listing: the pages it asked for, in order, and how it
/// ended.
pub ghost struct Course<T> {
    pub asked: Seq<nat>,
    pub ending: Ending<T>,
}

/// The course that a listing takes from the point where it asks for page
/// `page` with the items `gathered`, if its requests are answered by
/// `replies` in order.
pub open spec fn course<T>(
    page: nat,
    gathered: Seq<T>,
    replies: Seq<Reply<PagedSchemaWrapper<Vec<T>>>>,
) -> Course<T>
    decreases replies.len(),
{
    if replies.len() == 0 {
        Course { asked: Seq::empty(), ending: Ending::Unfinished }
    } else {
        match turn(page, gathered, replies[0]) {
            Turn::Done(result) => Course { asked: seq![page], ending: Ending::Finished(result) },
            Turn::More { page: next, gathered: all } => {
                let rest = course(next, all, replies.skip(1));
                Course { asked: seq![page] + rest.asked, ending: rest.ending }
            },
        }
    }
}

/// The reply in which a page arrives as it should: under status 200, in the
/// success envelope.
pub open spec fn delivered<T>(page: PagedSchemaWrapper<Vec<T>>) -> Reply<
    PagedSchemaWrapper<Vec<T>>,
> {
    Reply::Received { status: STATUS_OK, body: Body::Data(page) }
}

/// The items of the given pages, in the order of the pages.
pub open spec fn all_items<T>(pages: Seq<PagedSchemaWrapper<Vec<T>>>) -> Seq<T>
    decreases pages.len(),
{
    if pages.len() == 0 {
        Seq::empty()
    } else {
        pages[0].data@ + all_items(pages.skip(1))
    }
}

/// The numbers `first`, `first + 1`, ... , `count` of them.
pub open spec fn counting_from(first: nat, count: nat) -> Seq<nat> {
    Seq::new(count, |i: int| (first + i) as nat)
}

proof fn lemma_course_of_remaining_pages<T>(
    page: nat,
    gathered: Seq<T>,
    pages: Seq<PagedSchemaWrapper<Vec<T>>>,
    replies: Seq<Reply<PagedSchemaWrapper<Vec<T>>>>,
    total_pages: nat,
)
    requires
        pages.len() >= 1,
        replies.len() == pages.len(),
        forall|i: int| 0 <= i < pages.len() ==> replies[i] == delivered(#[trigger] pages[i]),
        forall|i: int| 0 <= i < pages.len() ==> (#[trigger] pages[i]).pages == total_pages,
        page + pages.len() == total_pages + 1,
    ensures
        course(page, gathered, replies) == (Course {
            asked: counting_from(page, pages.len()),
            ending: Ending::Finished(Ok(gathered + all_items(pages))),
        }),
    decreases pages.len(),
{
    assert(replies[0] == delivered(pages[0]));
    assert(settled(replies[0]) == Ok::<PagedSchemaWrapper<Vec<T>>, ApiError>(pages[0]));
    let all = gathered + pages[0].data@;
    if pages.len() == 1 {
        assert(all_items(pages.skip(1)) =~= Seq::<T>::empty());
        assert(all =~= gathered + all_items(pages));
        assert(seq![page] =~= counting_from(page, 1));
    } else {
        let later_pages = pages.skip(1);
        let later_replies = replies.skip(1);
        assert forall|i: int| 0 <= i < later_pages.len() implies later_replies[i] == delivered(
            #[trigger] later_pages[i],
        ) by {
            assert(later_pages[i] == pages[i + 1]);
        }
        assert forall|i: int| 0 <= i < later_pages.len() implies (#[trigger] later_pages[i]).pages
            == total_pages by {
            assert(later_pages[i] == pages[i + 1]);
        }
        lemma_course_of_remaining_pages(page + 1, all, later_pages, later_replies, total_pages);
        assert(all + all_items(later_pages) =~= gathered + all_items(pages));
        assert(seq![page] + counting_from(page + 1, later_pages.len()) =~= counting_from(
            page,
            pages.len(),
        ));
    }
}

/// A listing of `pages.len()` pages, each of which arrives as it should and
/// reports that number of pages, asks for the pages 1, 2, ... up to that
/// number and for no other, and ends with the items of all its pages in
/// order.
pub proof fn lemma_listing_visits_every_page<T>(
    pages: Seq<PagedSchemaWrapper<Vec<T>>>,
    replies: Seq<Reply<PagedSchemaWrapper<Vec<T>>>>,
)
    requires
        pages.len() >= 1,
        replies.len() == pages.len(),
        forall|i: int| 0 <= i < pages.len() ==> replies[i] == delivered(#[trigger] pages[i]),
        forall|i: int| 0 <= i < pages.len() ==> (#[trigger] pages[i]).pages == pages.len(),
    ensures
        course(1, Seq::<T>::empty(), replies) == (Course {
            asked: counting_from(1, pages.len()),
            ending: Ending::Finished(Ok(all_items(pages))),
        }),
{
    lemma_course_of_remaining_pages(1, Seq::<T>::empty(), pages, replies, pages.len());
    assert(Seq::<T>::empty() + all_items(pages) =~= all_items(pages));
}

/// Full pages of `size` items each, followed by a last page of `last`
/// items, hold `(pages.len() - 1) * size + last` items together.
pub proof fn lemma_item_count<T>(pages: Seq<PagedSchemaWrapper<Vec<T>>>, size: nat, last: nat)
    requires
        pages.len() >= 1,
        forall|i: int| 0 <= i < pages.len() - 1 ==> (#[trigger] pages[i]).data@.len() == size,
        pages[pages.len() - 1].data@.len() == last,
    ensures
        all_items(pages).len() == (pages.len() - 1) * size + last,
    decreases pages.len(),
{
    if pages.len() == 1 {
        assert(all_items(pages.skip(1)) =~= Seq::<T>::empty());
    } else {
        let later = pages.skip(1);
        assert forall|i: int| 0 <= i < later.len() - 1 implies (#[trigger] later[i]).data@.len()
            == size by {
            assert(later[i] == pages[i + 1]);
        }
        assert(later[later.len() - 1] == pages[pages.len() - 1]);
        lemma_item_count(later, size, last);
        assert(pages[0].data@.len() == size);
        assert((pages.len() - 1) * size == (later.len() - 1) * size + size) by (nonlinear_arith)
            requires
                pages.len() == later.len() + 1,
        ;
    }
}

/// A listing ends with the failure of the first page that fails, having
/// asked for no page after it: the items of the pages before it are gone.
pub proof fn lemma_failed_page_ends_listing<T>(
    page: nat,
    gathered: Seq<T>,
    replies: Seq<Reply<PagedSchemaWrapper<Vec<T>>>>,
)
    requires
        replies.len() >= 1,
        settled(replies[0]) is Err,
    ensures
        course(page, gathered, replies) == (Course::<T> {
            asked: seq![page],
            ending: Ending::Finished(Err(settled(replies[0])->Err_0)),
        }),
{
}

} // verus!
