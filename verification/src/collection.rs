//! Walking a remote collection page by page. The stream holds the items of
//! the page at hand and the reference to the next page; the caller performs
//! the fetches it asks for and hands back what came.
use vstd::prelude::*;
use crate::activity_streams::ObjectKind;

verus! {

/// A page of a collection: its items, and the reference to the next page.
pub struct CollectionPage<T, R> {
    pub next: Option<R>,
    pub items: Option<Vec<T>>,
}

/// What the reference to a page resolved to.
pub enum PageOrLink<T, R> {
    /// A link; its `href`, if it has one, is fetched as a page.
    Link(Option<String>),
    /// A page (ordered or not).
    Page(CollectionPage<T, R>),
}

/// Which fetch the stream is waiting for.
#[derive(Clone, Copy, Debug, PartialEq, Eq, Structural)]
pub enum Pending {
    /// None.
    Idle,
    /// Resolving the reference to the next page.
    Resolving,
    /// Fetching a page through a link.
    Fetching,
    /// A page fetched through a link has come in; the fetch is kept, and
    /// asking for more once that page's items are used up is not allowed
    /// (the finished fetch would be waited on again).
    Fetched,
}

/// What the stream gives or asks for.
#[derive(Debug)]
pub enum StreamStep<T> {
    /// The next item.
    Item(T),
    /// The stream is over.
    End,
    /// Resolve the reference to the next page (see `next_page`) and hand the
    /// result to `on_resolved`.
    Resolve,
    /// Fetch this URL as a page and hand the result to `on_fetched`.
    Fetch(String),
    /// A fetch is still under way.
    Wait,
}

/// A stream over the items of a collection.
pub struct CollectionStream<T, R> {
    page_cache: Vec<T>,
    next_page: Option<R>,
    pending: Pending,
    total_items: Option<u64>,
}

/// The items of an optional list.
pub open spec fn opt_items<T>(v: Option<Vec<T>>) -> Seq<T> {
    match v {
        Some(x) => x@,
        None => Seq::empty(),
    }
}

impl<T, R> CollectionStream<T, R> {
    /// The items still cached from the page at hand; the last is given next.
    pub closed spec fn cache(&self) -> Seq<T> {
        self.page_cache@
    }

    /// The reference to the next page.
    pub closed spec fn next_ref(&self) -> Option<R> {
        self.next_page
    }

    /// The number of items the collection announces.
    pub closed spec fn total(&self) -> Option<u64> {
        self.total_items
    }

    /// The fetch the stream waits for.
    pub closed spec fn pending_fetch(&self) -> Pending {
        self.pending
    }

    /// Whether asking for the next item is allowed.
    pub open spec fn can_poll(&self) -> bool {
        !(self.cache().len() == 0 && self.pending_fetch() == Pending::Fetched)
    }

    /// A stream over a collection: its inline items if it has them, else its
    /// first page if it names one, else nothing.
    pub fn new(items: Option<Vec<T>>, first: Option<R>, total_items: Option<u64>) -> (r: Self)
        ensures
            r.total() == total_items,
            r.pending_fetch() == Pending::Idle,
            match items {
                Some(v) => r.cache() == v@ && r.next_ref() is None,
                None => r.cache().len() == 0 && r.next_ref() == first,
            },
    {
        match items {
            Some(v) => CollectionStream { page_cache: v, next_page: None, pending: Pending::Idle, total_items },
            None => CollectionStream { page_cache: Vec::new(), next_page: first, pending: Pending::Idle, total_items },
        }
    }

    /// The reference to resolve when the stream asks for it.
    pub fn next_page(&self) -> (r: &Option<R>)
        ensures
            *r == self.next_ref(),
    {
        &self.next_page
    }

    /// How many items are known to come at least, and at most.
    pub fn size_hint(&self) -> (r: (usize, Option<usize>))
        ensures
            r.0 == self.cache().len(),
            r.1 == match self.total() {
                Some(t) => Some(t as usize),
                None => None,
            },
    {
        let total = match self.total_items {
            Some(t) => Some(t as usize),
            None => None,
        };
        (self.page_cache.len(), total)
    }

    /// Asks for the next item: the last cached item if any; else waits for a
    /// fetch under way; else asks to resolve the next page if there is one;
    /// else the stream is over.
    pub fn poll_next(&mut self) -> (r: StreamStep<T>)
        requires
            old(self).can_poll(),
        ensures
            final(self).total() == old(self).total(),
            final(self).next_ref() == old(self).next_ref(),
            old(self).cache().len() > 0 ==> (r matches StreamStep::Item(x)
                && x == old(self).cache().last()
                && final(self).cache() == old(self).cache().drop_last()
                && final(self).pending_fetch() == old(self).pending_fetch()),
            old(self).cache().len() == 0 ==> final(self).cache().len() == 0 && match old(self).pending_fetch() {
                Pending::Fetching | Pending::Resolving => r is Wait && final(self).pending_fetch() == old(self).pending_fetch(),
                _ => if old(self).next_ref() is Some {
                    r is Resolve && final(self).pending_fetch() == Pending::Resolving
                } else {
                    r is End && final(self).pending_fetch() == old(self).pending_fetch()
                },
            },
    {
        match self.page_cache.pop() {
            Some(item) => StreamStep::Item(item),
            None => match self.pending {
                Pending::Fetching | Pending::Resolving => StreamStep::Wait,
                _ => {
                    if self.next_page.is_some() {
                        self.pending = Pending::Resolving;
                        StreamStep::Resolve
                    } else {
                        StreamStep::End
                    }
                },
            },
        }
    }

    /// Takes in a page: its next reference replaces the stream's, its items
    /// are added to the cache, and the last cached item is given (the stream
    /// ends when there is none, even if a next page is named).
    fn take_page(&mut self, page: CollectionPage<T, R>) -> (r: StreamStep<T>)
        ensures
            final(self).total() == old(self).total(),
            final(self).pending_fetch() == old(self).pending_fetch(),
            final(self).next_ref() == page.next,
            ({
                let all = old(self).cache() + opt_items(page.items);
                if all.len() > 0 {
                    r matches StreamStep::Item(x) && x == all.last() && final(self).cache() == all.drop_last()
                } else {
                    r is End && final(self).cache().len() == 0
                }
            }),
    {
        self.next_page = page.next;
        match page.items {
            Some(mut items) => {
                self.page_cache.append(&mut items);
            },
            None => {
                proof {
                    assert(old(self).cache() + opt_items(page.items) =~= old(self).cache());
                }
            },
        }
        match self.page_cache.pop() {
            Some(item) => StreamStep::Item(item),
            None => StreamStep::End,
        }
    }

    /// Takes in what the next page's reference resolved to: nothing ends the
    /// stream; a link with a URL starts fetching it; a link without one ends
    /// the stream; a page is taken in.
    pub fn on_resolved(&mut self, resolved: Option<PageOrLink<T, R>>) -> (r: StreamStep<T>)
        requires
            old(self).pending_fetch() == Pending::Resolving,
        ensures
            final(self).total() == old(self).total(),
            match resolved {
                None => r is End && final(self).pending_fetch() == Pending::Idle
                    && final(self).cache() == old(self).cache() && final(self).next_ref() == old(self).next_ref(),
                Some(PageOrLink::Link(Some(href))) => (r matches StreamStep::Fetch(u) && u@ == href@)
                    && final(self).pending_fetch() == Pending::Fetching
                    && final(self).cache() == old(self).cache() && final(self).next_ref() == old(self).next_ref(),
                Some(PageOrLink::Link(None)) => r is End && final(self).pending_fetch() == Pending::Idle
                    && final(self).cache() == old(self).cache() && final(self).next_ref() == old(self).next_ref(),
                Some(PageOrLink::Page(page)) => {
                    let all = old(self).cache() + opt_items(page.items);
                    &&& final(self).pending_fetch() == Pending::Idle
                    &&& final(self).next_ref() == page.next
                    &&& if all.len() > 0 {
                        r matches StreamStep::Item(x) && x == all.last() && final(self).cache() == all.drop_last()
                    } else {
                        r is End && final(self).cache().len() == 0
                    }
                },
            },
    {
        self.pending = Pending::Idle;
        match resolved {
            None => StreamStep::End,
            Some(PageOrLink::Link(Some(href))) => {
                self.pending = Pending::Fetching;
                StreamStep::Fetch(href)
            },
            Some(PageOrLink::Link(None)) => StreamStep::End,
            Some(PageOrLink::Page(page)) => self.take_page(page),
        }
    }

    /// Takes in the page fetched through a link: nothing ends the stream;
    /// a page is taken in.
    pub fn on_fetched(&mut self, page: Option<CollectionPage<T, R>>) -> (r: StreamStep<T>)
        requires
            old(self).pending_fetch() == Pending::Fetching,
        ensures
            final(self).total() == old(self).total(),
            final(self).pending_fetch() == Pending::Fetched,
            match page {
                None => r is End && final(self).cache() == old(self).cache() && final(self).next_ref() == old(self).next_ref(),
                Some(p) => {
                    let all = old(self).cache() + opt_items(p.items);
                    &&& final(self).next_ref() == p.next
                    &&& if all.len() > 0 {
                        r matches StreamStep::Item(x) && x == all.last() && final(self).cache() == all.drop_last()
                    } else {
                        r is End && final(self).cache().len() == 0
                    }
                },
            },
    {
        self.pending = Pending::Fetched;
        match page {
            None => StreamStep::End,
            Some(p) => self.take_page(p),
        }
    }
}

/// A stream over the items of a fetched object: `None` (the fetch fails)
/// unless it is a collection or an ordered collection; then the stream of
/// `CollectionStream::new` over its inline items, first page and announced
/// size.
pub fn fetch_entire_collection<T, R>(
    kind: ObjectKind, items: Option<Vec<T>>, first: Option<R>, total_items: Option<u64>,
) -> (r: Option<CollectionStream<T, R>>)
    ensures
        r is Some <==> (kind == ObjectKind::Collection || kind == ObjectKind::OrderedCollection),
        r matches Some(c) ==> {
            &&& c.total() == total_items
            &&& c.pending_fetch() == Pending::Idle
            &&& match items {
                Some(v) => c.cache() == v@ && c.next_ref() is None,
                None => c.cache().len() == 0 && c.next_ref() == first,
            }
        },
{
    match kind {
        ObjectKind::Collection | ObjectKind::OrderedCollection => Some(CollectionStream::new(items, first, total_items)),
        _ => None,
    }
}

} // verus!
