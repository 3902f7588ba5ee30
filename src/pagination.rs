//! Cursor-linked pagination: the state machine of a listing request.
//!
//! A paginator is either pending, holding the URL of the next page, or
//! exhausted. Pages are fetched strictly one after another.
use vstd::prelude::*;

use crate::client::opt_view;

verus! {

/// One page of results.
pub struct PagedResponse<T> {
    pub items: Vec<T>,
    pub next_url: Option<String>,
    pub request_id: Option<String>,
}

impl<T> PagedResponse<T> {
    /// Whether the server linked a further page.
    pub fn has_next(&self) -> (r: bool)
        ensures
            r == self.next_url is Some,
    {
        self.next_url.is_some()
    }
}

/// The state of a listing: the URL of the next page, if any.
pub struct Paginator {
    next_url: Option<String>,
}

/// Where every page links a next one, the listing never becomes exhausted,
/// so draining it needs a bound imposed from outside.
///
/// `states[k]` is the paginator after `k` pages were recorded, and `links[k]`
/// the link of page `k`. By `record_page`'s contract each state holds the
/// previous page's link; by `next_request`'s, a pending state always hands
/// out a further URL.
pub proof fn lemma_endless_pagination(states: Seq<Paginator>, links: Seq<Option<String>>)
    requires
        states.len() == links.len() + 1,
        states[0]@ is Some,
        forall|k: int| 0 <= k < links.len() ==> #[trigger] links[k] is Some,
        forall|k: int| 0 <= k < links.len() ==> #[trigger] states[k + 1]@ == opt_view(links[k]),
    ensures
        forall|k: int| 0 <= k < states.len() ==> (#[trigger] states[k])@ is Some,
{
    assert forall|k: int| 0 <= k < states.len() implies (#[trigger] states[k])@ is Some by {
        if k > 0 {
            assert(links[k - 1] is Some);
            assert(states[(k - 1) + 1]@ == opt_view(links[k - 1]));
        }
    }
}

impl View for Paginator {
    type V = Option<Seq<char>>;

    closed spec fn view(&self) -> Option<Seq<char>> {
        opt_view(self.next_url)
    }
}

impl Paginator {
    /// A pending listing starting at `initial_url`.
    pub fn new(initial_url: String) -> (r: Self)
        ensures
            r@ == Some(initial_url@),
    {
        Paginator { next_url: Some(initial_url) }
    }

    /// Whether no page is left to fetch.
    pub fn is_exhausted(&self) -> (r: bool)
        ensures
            r == self@ is None,
    {
        self.next_url.is_none()
    }

    /// Takes the URL of the next page to fetch; none once exhausted, which
    /// means no network activity at all. Until the page is recorded the
    /// listing counts as exhausted.
    pub fn next_request(&mut self) -> (r: Option<String>)
        ensures
            opt_view(r) == old(self)@,
            final(self)@ is None,
    {
        let r = self.next_url.take();
        r
    }

    /// Records a fetched page: the listing moves to the page's next link, or
    /// becomes exhausted where there is none.
    pub fn record_page<T>(&mut self, items: Vec<T>, next_url: Option<String>, request_id: Option<String>) -> (r: PagedResponse<T>)
        ensures
            final(self)@ == opt_view(next_url),
            r.items == items,
            opt_view(r.next_url) == opt_view(next_url),
            r.request_id == request_id,
    {
        let link = match &next_url {
            Some(u) => Some(u.clone()),
            None => None,
        };
        self.next_url = link;
        PagedResponse { items, next_url, request_id }
    }
}

/// Appends a page's items, in order, to those collected so far.
pub fn append_page<T>(all: &mut Vec<T>, page: PagedResponse<T>)
    ensures
        final(all)@ == old(all)@ + page.items@,
{
    let mut items = page.items;
    all.append(&mut items);
}

} // verus!
