//! The paginated stream.
//!
//! A [`List`] is one fetched page of a multi-page collection: its items
//! in order, a flag and an optional link for the following page, and an
//! optional total-count hint. A [`ListIter`] drains a page's items in
//! their original order and, only once they are exhausted, asks for the
//! next page — the fetch itself happens outside this module, which owns
//! the advancing and failure policy. A failed mid-stream fetch is
//! absorbed: the lazy stream simply ends. The eager collect-all policy
//! ([`eager_step`]) is the deliberate opposite: any failed page
//! propagates as a hard error and every accumulated item is discarded.

use vstd::prelude::*;

use crate::error::Error;
use crate::uri::Uri;

verus! {

/// A page of a multi-page collection, materialized fresh by one fetch
/// and consumed once.
pub struct List<T> {
    /// The items of this page, in order.
    pub data: Vec<T>,
    /// Whether the collection has further pages.
    pub has_more: bool,
    /// Where the following page lives, if any.
    pub next_page: Option<Uri<List<T>>>,
    /// The collection's total item count, when the API reports one.
    pub total_cards: Option<u64>,
}

/// The mathematical state of a page: its items and the link onward.
pub struct PageModel<T> {
    pub items: Seq<T>,
    pub next: Option<Seq<char>>,
}

/// The URL, if any, that an optional link points at.
pub open spec fn opt_link_view<T>(o: Option<Uri<List<T>>>) -> Option<Seq<char>> {
    match o {
        Some(u) => Some(u@),
        None => None,
    }
}

impl<T> View for List<T> {
    type V = PageModel<T>;

    open spec fn view(&self) -> PageModel<T> {
        PageModel { items: self.data@, next: opt_link_view(self.next_page) }
    }
}

/// The mathematical state of a stream: the items still buffered from
/// the current page, and the link onward.
pub struct StreamModel<T> {
    pub buffered: Seq<T>,
    pub next: Option<Seq<char>>,
}

/// A lazily advancing stream over a multi-page collection. It owns the
/// current page's remaining items and the pending next-page link;
/// following pages are requested only at the moment the buffer runs
/// out, never speculatively. Non-restartable: once drained, a new fetch
/// must be issued to iterate again.
pub struct ListIter<T> {
    items: Vec<T>,
    next_uri: Option<Uri<List<T>>>,
}

impl<T> View for ListIter<T> {
    type V = StreamModel<T>;

    closed spec fn view(&self) -> StreamModel<T> {
        StreamModel { buffered: self.items@, next: opt_link_view(self.next_uri) }
    }
}

impl<T> ListIter<T> {
    /// A stream over the collection whose first fetched page is `page`.
    pub fn new(page: List<T>) -> (r: ListIter<T>)
        ensures
            r@.buffered == page@.items,
            r@.next == page@.next,
    {
        ListIter { items: page.data, next_uri: page.next_page }
    }

    /// The next buffered item, in the page's original order; `None`
    /// when the buffer is exhausted (which is not yet the end of the
    /// stream if a next-page link is pending).
    pub fn next_item(&mut self) -> (r: Option<T>)
        ensures
            old(self)@.buffered.len() > 0 ==> (r == Some(old(self)@.buffered[0])
                && final(self)@.buffered == old(self)@.buffered.drop_first()
                && final(self)@.next == old(self)@.next),
            old(self)@.buffered.len() == 0 ==> (r is None && final(self)@ == old(self)@),
    {
        if self.items.len() > 0 {
            let item = self.items.remove(0);
            proof {
                assert(self.items@ =~= old(self).items@.drop_first());
            }
            Some(item)
        } else {
            None
        }
    }

    /// The link that must be fetched before the stream can go on:
    /// present exactly when the buffer is exhausted and a next-page
    /// link is pending.
    pub fn pending_next(&self) -> (r: Option<Uri<List<T>>>)
        ensures
            match r {
                Some(u) => self@.buffered.len() == 0 && self@.next == Some(u@),
                None => self@.buffered.len() > 0 || self@.next is None,
            },
    {
        if self.items.len() == 0 {
            match &self.next_uri {
                Some(u) => Some(u.duplicate()),
                None => None,
            }
        } else {
            None
        }
    }

    /// Supply the outcome of fetching the pending page — the lazy
    /// failure policy: a fetched page refills the buffer and adopts
    /// that page's own link onward; a failed fetch exhausts the stream,
    /// absorbed rather than surfaced to the consumer.
    pub fn advance(&mut self, fetched: Result<List<T>, Error>)
        requires
            old(self)@.buffered.len() == 0,
        ensures
            fetched matches Ok(page) ==> (final(self)@.buffered == page@.items && final(self)@.next
                == page@.next),
            fetched is Err ==> (final(self)@.buffered == Seq::<T>::empty()
                && final(self)@.next is None),
    {
        match fetched {
            Ok(page) => {
                self.items = page.data;
                self.next_uri = page.next_page;
            },
            Err(_) => {
                self.next_uri = None;
                proof {
                    assert(self.items@ =~= Seq::<T>::empty());
                }
            },
        }
    }
}

/// One step of the eager collect-all: a fetched page appends its items
/// to the accumulator, in order, and hands back the link to follow; a
/// failed fetch propagates as a hard error and the accumulated items
/// are discarded — no partial result survives.
pub fn eager_step<T>(acc: Vec<T>, fetched: Result<List<T>, Error>) -> (r: Result<
    (Vec<T>, Option<Uri<List<T>>>),
    Error,
>)
    ensures
        fetched matches Ok(page) ==> (r matches Ok(pair) && pair.0@ == acc@ + page@.items
            && opt_link_view(pair.1) == page@.next),
        fetched matches Err(e) ==> r == Err::<(Vec<T>, Option<Uri<List<T>>>), Error>(e),
{
    match fetched {
        Ok(page) => {
            let mut out = acc;
            let mut data = page.data;
            out.append(&mut data);
            Ok((out, page.next_page))
        },
        Err(e) => Err(e),
    }
}

/// The items a stream yields when fully drained under the lazy policy:
/// the buffer first, in order, then — only if a link is pending and a
/// page is supplied — whatever the stream refilled from that page
/// yields from the remaining supply.
pub open spec fn stream_yield<T>(s: StreamModel<T>, pages: Seq<PageModel<T>>) -> Seq<T>
    decreases pages.len(),
{
    if s.next is Some && pages.len() > 0 {
        s.buffered + stream_yield(
            StreamModel { buffered: pages[0].items, next: pages[0].next },
            pages.drop_first(),
        )
    } else {
        s.buffered
    }
}

/// The concatenation of the items of a sequence of pages, in order.
pub open spec fn chain_items<T>(pages: Seq<PageModel<T>>) -> Seq<T>
    decreases pages.len(),
{
    if pages.len() == 0 {
        Seq::empty()
    } else {
        pages[0].items + chain_items(pages.drop_first())
    }
}

/// Whether pages form a chain: every page but the last links onward,
/// and the last links nowhere.
pub open spec fn linked_chain<T>(pages: Seq<PageModel<T>>) -> bool {
    forall|i: int|
        0 <= i < pages.len() ==> (#[trigger] pages[i].next is Some <==> i < pages.len() - 1)
}

/// Round trip: a paginated stream built from a chain of pages, with the
/// following pages supplied in chain order as the stream asks for them,
/// yields exactly the concatenation of the pages' items, in order, and
/// then terminates.
pub proof fn lemma_stream_round_trip<T>(pages: Seq<PageModel<T>>)
    requires
        pages.len() > 0,
        linked_chain(pages),
    ensures
        stream_yield(
            StreamModel { buffered: pages[0].items, next: pages[0].next },
            pages.drop_first(),
        ) == chain_items(pages),
    decreases pages.len(),
{
    let s = StreamModel { buffered: pages[0].items, next: pages[0].next };
    let rest = pages.drop_first();
    if pages.len() == 1 {
        assert(pages[0].next is None);
        assert(stream_yield(s, rest) == pages[0].items);
        assert(chain_items(rest) == Seq::<T>::empty());
        assert(pages[0].items + Seq::<T>::empty() =~= pages[0].items);
    } else {
        assert(pages[0].next is Some);
        assert(linked_chain(rest)) by {
            assert forall|i: int| 0 <= i < rest.len() implies (#[trigger] rest[i].next is Some <==> i
                < rest.len() - 1) by {
                assert(rest[i] == pages[i + 1]);
            }
        }
        lemma_stream_round_trip(rest);
        assert(stream_yield(s, rest) == pages[0].items + stream_yield(
            StreamModel { buffered: rest[0].items, next: rest[0].next },
            rest.drop_first(),
        ));
    }
}

} // verus!
