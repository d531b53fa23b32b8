//! Paged collections: one page is asked for at a time, at an offset that
//! moves forward by the number of items received, and the items are handed
//! out one by one in the order in which the service sent them.

use crate::api::endpoint::{Body, Endpoint, Method, Pageable};
use crate::api::error::{ApiError, ApiErrorView, BodyError};
use crate::api::form::{
    decoded_pairs, encode_pairs, encoded_pairs, lemma_encoded_pairs_concat, lemma_pairs_round_trip,
    pairs_view, Pair,
};
use crate::api::query::{assemble, assembles, interpret, payload_of};
use crate::api::transport::{Outcome, Transport, WireRequest};
use crate::json::{json_parsed, read_all, reads_all, view_of, views, FromJson, Json, JsonView};
use crate::text::{decimal, unsigned_text};
use crate::types::common::{pagination_of, Pagination};
use vstd::prelude::*;
use vstd::string::{StrSliceExecFns, StringExecFns};

verus! {

/// The parameters that ask for a page: its offset and, where a page size is
/// asked for, that size.
pub open spec fn cursor_pairs(offset: u64, max: Option<u64>) -> Seq<(Seq<char>, Seq<char>)> {
    match max {
        Some(size) => seq![("offset"@, decimal(offset as nat)), ("max"@, decimal(size as nat))],
        None => seq![("offset"@, decimal(offset as nat))],
    }
}

/// The query string of a request for a page: the request's own parameters,
/// then those of the cursor.
pub open spec fn paged_query(query: Seq<char>, offset: u64, max: Option<u64>) -> Seq<char> {
    if query.len() == 0 {
        encoded_pairs(cursor_pairs(offset, max))
    } else {
        query + seq!['&'] + encoded_pairs(cursor_pairs(offset, max))
    }
}

/// The query string of a request for a page is that of the request's
/// parameters followed by the cursor's: both are read back from it.
pub proof fn lemma_paged_query(pairs: Seq<(Seq<char>, Seq<char>)>, offset: u64, max: Option<u64>)
    ensures
        paged_query(encoded_pairs(pairs), offset, max) == encoded_pairs(
            pairs + cursor_pairs(offset, max),
        ),
        decoded_pairs(paged_query(encoded_pairs(pairs), offset, max)) == pairs + cursor_pairs(
            offset,
            max,
        ),
{
    let cursor = cursor_pairs(offset, max);
    lemma_pairs_round_trip(pairs + cursor);
    if pairs.len() > 0 {
        lemma_encoded_pairs_concat(pairs, cursor);
    }
}

/// A request for one page of what `endpoint` lists: the same request, with
/// the offset of the page and the page size added to its parameters.
pub struct Page<'a, E> {
    pub endpoint: &'a E,
    pub offset: u64,
    pub max: Option<u64>,
}

impl<'a, E: Endpoint> Endpoint for Page<'a, E> {
    /// The method of the request.
    fn method(&self) -> (method: Method)
        ensures
            call_ensures(E::method, (self.endpoint,), method),
    {
        self.endpoint.method()
    }

    /// The path of the request.
    fn endpoint_path(&self) -> (path: String)
        ensures
            call_ensures(E::endpoint_path, (self.endpoint,), path),
    {
        self.endpoint.endpoint_path()
    }

    /// The query string of the request with the parameters of the cursor
    /// after it, or the error of the request.
    fn query_parameters(&self) -> (query: Result<String, BodyError>)
        ensures
            exists|own: Result<String, BodyError>| #[trigger]
                call_ensures(E::query_parameters, (self.endpoint,), own) && match own {
                    Err(e) => query == Err::<String, BodyError>(e),
                    Ok(text) => query matches Ok(q) && q@ == paged_query(
                        text@,
                        self.offset,
                        self.max,
                    ),
                },
    {
        let mut query = match self.endpoint.query_parameters() {
            Ok(query) => query,
            Err(e) => {
                return Err(e);
            },
        };
        let mut pairs: Vec<Pair> = Vec::new();
        pairs.push((String::from_str("offset"), unsigned_text(self.offset)));
        match self.max {
            Some(size) => {
                pairs.push((String::from_str("max"), unsigned_text(size)));
            },
            None => {},
        }
        let cursor = match encode_pairs(&pairs) {
            Ok(cursor) => cursor,
            Err(e) => {
                return Err(e);
            },
        };
        proof {
            assert(pairs_view(pairs@) =~= cursor_pairs(self.offset, self.max));
            reveal_strlit("&");
        }
        if query.as_str().unicode_len() == 0 {
            Ok(cursor)
        } else {
            query.append("&");
            query.append(cursor.as_str());
            Ok(query)
        }
    }

    /// The body of the request.
    fn body(&self) -> (body: Result<Option<Body>, BodyError>)
        ensures
            call_ensures(E::body, (self.endpoint,), body),
    {
        self.endpoint.body()
    }
}

/// One page of a collection: its items, in the order received, and where the
/// page lies.
#[derive(Debug, PartialEq, Eq)]
pub struct Paged<T> {
    pub items: Vec<T>,
    pub pagination: Pagination,
}

/// The cursor of a paged answer: what the member `pagination` of the
/// document denotes.
pub open spec fn cursor_of(parsed: Option<JsonView>) -> Option<Pagination> {
    match parsed {
        Some(document) => match document.member("pagination"@) {
            Some(value) => pagination_of(value),
            None => None,
        },
        None => None,
    }
}

/// Whether `page` is what a paged answer means. Under a status of 400 or
/// more it is the error of the error envelope. Otherwise the document holds
/// an array under `data` and a cursor under `pagination` whose `size` is the
/// length of the array, and the page holds the array's elements, each read as
/// a `T`, and the cursor. Any other answer is a decode error that holds the
/// bytes received.
pub open spec fn page_read<T: FromJson>(
    status: u16,
    raw: Seq<u8>,
    parsed: Option<JsonView>,
    page: Result<Paged<T>, ApiError>,
) -> bool {
    match payload_of(status, raw, parsed) {
        Err(error) => page matches Err(e) && e@ == error,
        Ok(payload) => match (payload, cursor_of(parsed)) {
            (JsonView::Array(items), Some(cursor)) if cursor.size == items.len() => exists|
                listed: Seq<Json>,
                decoded: Option<Vec<T>>,
            |
                {
                    &&& views(listed) == items
                    &&& #[trigger] reads_all(listed, decoded)
                    &&& match decoded {
                        Some(values) => page == Ok::<Paged<T>, ApiError>(
                            Paged { items: values, pagination: cursor },
                        ),
                        None => page matches Err(e) && e@ == (ApiErrorView::Decode {
                            payload: raw,
                        }),
                    }
                },
            _ => page matches Err(e) && e@ == (ApiErrorView::Decode { payload: raw }),
        },
    }
}

/// A page that was read holds as many items as its cursor says.
pub proof fn lemma_page_size<T: FromJson>(
    status: u16,
    raw: Seq<u8>,
    parsed: Option<JsonView>,
    page: Paged<T>,
)
    requires
        page_read(status, raw, parsed, Ok::<Paged<T>, ApiError>(page)),
    ensures
        page.items@.len() == page.pagination.size,
{
    let payload = payload_of(status, raw, parsed)->Ok_0;
    let items = payload->Array_0;
    let (listed, decoded) = choose|listed: Seq<Json>, decoded: Option<Vec<T>>|
        {
            &&& views(listed) == items
            &&& #[trigger] reads_all(listed, decoded)
            &&& match decoded {
                Some(values) => Ok::<Paged<T>, ApiError>(page) == Ok::<Paged<T>, ApiError>(
                    Paged { items: values, pagination: cursor_of(parsed)->Some_0 },
                ),
                None => false,
            }
        };
}

/// Tells what a paged answer means, given its status, the bytes received and
/// what the JSON reader made of them.
pub fn interpret_page<T: FromJson>(status: u16, raw: Vec<u8>, parsed: Option<Json>) -> (page:
    Result<Paged<T>, ApiError>)
    ensures
        page_read(status, raw@, view_of(parsed), page),
{
    let cursor = match &parsed {
        Some(document) => match document.member("pagination") {
            Some(value) => Pagination::from_json(value),
            None => None,
        },
        None => None,
    };
    let kept = raw.clone();
    let data = match interpret(status, raw, parsed) {
        Ok(data) => data,
        Err(e) => {
            return Err(e);
        },
    };
    let pagination = match cursor {
        Some(pagination) => pagination,
        None => {
            return Err(ApiError::Decode { payload: kept });
        },
    };
    let listed = match data.as_array() {
        Some(listed) => listed,
        None => {
            return Err(ApiError::Decode { payload: kept });
        },
    };
    if listed.len() as u64 != pagination.size {
        return Err(ApiError::Decode { payload: kept });
    }
    match read_all::<T>(listed) {
        Some(items) => Ok(Paged { items, pagination }),
        None => Err(ApiError::Decode { payload: kept }),
    }
}

/// Whether `page` is what an exchange for a page that ended in `outcome`
/// gives: the transport's failure handed on, or what the answer means.
pub open spec fn page_concludes<T: FromJson>(
    outcome: Outcome,
    page: Result<Paged<T>, ApiError>,
) -> bool {
    match outcome {
        Err(failure) => page == Err::<Paged<T>, ApiError>(ApiError::Client(failure)),
        Ok(response) => page_read(
            response.status,
            response.body@,
            json_parsed(response.body@),
            page,
        ),
    }
}

/// Turns the outcome of an exchange for a page into the page or a typed
/// error.
pub fn conclude_page<T: FromJson>(outcome: Outcome) -> (page: Result<Paged<T>, ApiError>)
    ensures
        page_concludes(outcome, page),
{
    let response = match outcome {
        Ok(response) => response,
        Err(e) => {
            return Err(ApiError::Client(e));
        },
    };
    let parsed = Json::parse(response.body.as_slice());
    interpret_page(response.status, response.body, parsed)
}

/// The state of a walk through a paged collection.
pub struct PagerView<T> {
    /// The offset at which the next page is asked for.
    pub offset: u64,
    /// The page size that is asked for: the caller's, or the one that the
    /// service named in its first answer.
    pub page_size: Option<u64>,
    /// The items received and not yet handed out, next one first.
    pub pending: Seq<T>,
    /// Whether no further page is asked for.
    pub exhausted: bool,
}

/// The state after a page was taken in: its items wait behind those that
/// waited before and the offset moves on by their number. The walk is
/// exhausted once a page is empty or shorter than its `max`, or the offset
/// cannot move on. An exhausted walk takes no further page in: it stays as
/// it is.
pub open spec fn accepted<T>(before: PagerView<T>, page: Paged<T>) -> PagerView<T> {
    let count = page.items@.len();
    if before.exhausted {
        before
    } else {
        PagerView {
            offset: if before.offset + count <= u64::MAX {
                (before.offset + count) as u64
            } else {
                before.offset
            },
            page_size: match before.page_size {
                Some(size) => Some(size),
                None => Some(page.pagination.max),
            },
            pending: before.pending + page.items@,
            exhausted: count == 0 || count < page.pagination.max || before.offset + count
                > u64::MAX,
        }
    }
}

/// While a walk goes on, each page that it takes in moves the offset
/// forward, by the number of the page's items: pages are asked for in
/// strictly increasing order of their offsets. And a walk that goes on after
/// a page has received a full page: as many items as the page's `max`, or
/// more.
pub proof fn lemma_walk_moves_forward<T>(before: PagerView<T>, page: Paged<T>)
    requires
        !accepted(before, page).exhausted,
    ensures
        accepted(before, page).offset == before.offset + page.items@.len(),
        accepted(before, page).offset > before.offset,
        page.items@.len() >= page.pagination.max,
{
}

/// The items of a page wait in the order in which the page holds them,
/// behind those that waited before.
pub proof fn lemma_walk_keeps_order<T>(before: PagerView<T>, page: Paged<T>, i: int)
    requires
        !before.exhausted,
        0 <= i < page.items@.len(),
    ensures
        accepted(before, page).pending.len() == before.pending.len() + page.items@.len(),
        accepted(before, page).pending[before.pending.len() + i] == page.items@[i],
        forall|k: int|
            0 <= k < before.pending.len() ==> accepted(before, page).pending[k]
                == before.pending[k],
{
}

/// The state of a walk before its first page.
pub open spec fn fresh<T>(page_size: Option<u64>) -> PagerView<T> {
    PagerView { offset: 0, page_size, pending: Seq::empty(), exhausted: false }
}

/// The state after a walk took in `pages`, one after the other.
pub open spec fn taken_in<T>(start: PagerView<T>, pages: Seq<Paged<T>>) -> PagerView<T>
    decreases pages.len(),
{
    if pages.len() == 0 {
        start
    } else {
        accepted(taken_in(start, pages.drop_last()), pages.last())
    }
}

/// The items of `pages`, page after page.
pub open spec fn all_items<T>(pages: Seq<Paged<T>>) -> Seq<T>
    decreases pages.len(),
{
    if pages.len() == 0 {
        Seq::empty()
    } else {
        all_items(pages.drop_last()) + pages.last().items@
    }
}

/// Whether a page is full: it holds an item, and as many items as its `max`
/// or more.
pub open spec fn is_full<T>(page: Paged<T>) -> bool {
    page.items@.len() > 0 && page.items@.len() >= page.pagination.max
}

/// A walk goes on over full pages: after any number of them it is not
/// exhausted, it has received the items of all of them, in order, and it
/// asks for the next page at the offset that is their number.
pub proof fn lemma_walk_over_full_pages<T>(page_size: Option<u64>, pages: Seq<Paged<T>>)
    requires
        forall|i: int| 0 <= i < pages.len() ==> is_full(#[trigger] pages[i]),
        all_items(pages).len() <= u64::MAX,
    ensures
        !taken_in(fresh(page_size), pages).exhausted,
        taken_in(fresh(page_size), pages).pending == all_items(pages),
        taken_in(fresh(page_size), pages).offset == all_items(pages).len(),
    decreases pages.len(),
{
    if pages.len() > 0 {
        let earlier = pages.drop_last();
        assert forall|i: int| 0 <= i < earlier.len() implies is_full(#[trigger] earlier[i]) by {
            assert(earlier[i] == pages[i]);
        }
        lemma_walk_over_full_pages(page_size, earlier);
    }
}

/// A walk ends with the first page that is not full: after full pages and
/// one page that is empty or shorter than its `max`, the walk is exhausted
/// and has received the items of all these pages, in order. Whatever page
/// is offered to it after that, it stays as it is.
pub proof fn lemma_walk_ends_at_short_page<T>(
    page_size: Option<u64>,
    pages: Seq<Paged<T>>,
    last: Paged<T>,
    later: Paged<T>,
)
    requires
        forall|i: int| 0 <= i < pages.len() ==> is_full(#[trigger] pages[i]),
        !is_full(last),
        all_items(pages.push(last)).len() <= u64::MAX,
    ensures
        taken_in(fresh(page_size), pages.push(last)).exhausted,
        taken_in(fresh(page_size), pages.push(last)).pending == all_items(pages.push(last)),
        accepted(taken_in(fresh(page_size), pages.push(last)), later) == taken_in(
            fresh(page_size),
            pages.push(last),
        ),
{
    assert(pages.push(last).drop_last() =~= pages);
    lemma_walk_over_full_pages(page_size, pages);
}

/// The state after the first of the pending items left.
pub open spec fn handed_out<T>(before: PagerView<T>) -> PagerView<T> {
    PagerView { pending: before.pending.skip(1), ..before }
}

/// The state after the walk was given up.
pub open spec fn given_up<T>(before: PagerView<T>) -> PagerView<T> {
    PagerView { exhausted: true, ..before }
}

/// Whether a pull that fetched a page moved the walk from `before` to
/// `after` and returned `pulled`, where the fetch gave `fetched`. A failed
/// fetch ends the walk and is returned. A page is taken in; its first item
/// is returned, or nothing where it is empty.
pub open spec fn stepped<T>(
    before: PagerView<T>,
    fetched: Result<Paged<T>, ApiError>,
    after: PagerView<T>,
    pulled: Option<Result<T, ApiError>>,
) -> bool {
    match fetched {
        Err(e) => pulled == Some(Err::<T, ApiError>(e)) && after == given_up(before),
        Ok(page) => {
            let taken = accepted(before, page);
            if taken.pending.len() > 0 {
                pulled == Some(Ok::<T, ApiError>(taken.pending[0])) && after == handed_out(taken)
            } else {
                pulled is None && after == taken
            }
        },
    }
}

/// What a pull begins with.
#[derive(Debug, PartialEq, Eq)]
pub enum Pull<T> {
    /// An item waited; it is handed out.
    Item(T),
    /// Nothing waits and the walk is exhausted: the collection is at its
    /// end.
    End,
    /// A page is to be fetched: this request is to be sent, once, and what
    /// comes back is to be handed to [`Pager::end_pull`].
    Fetch(WireRequest),
    /// The request for the next page could not be assembled; the walk has
    /// ended.
    Failed(ApiError),
}

/// A walk through the collection that a request lists. It holds the request,
/// the offset of the next page and the items that wait to be handed out.
pub struct Pager<E, T> {
    endpoint: E,
    offset: u64,
    max: Option<u64>,
    /// The pending items, last one first.
    waiting: Vec<T>,
    exhausted: bool,
}

impl<E, T> View for Pager<E, T> {
    type V = PagerView<T>;

    closed spec fn view(&self) -> PagerView<T> {
        PagerView {
            offset: self.offset,
            page_size: self.max,
            pending: self.waiting@.reverse(),
            exhausted: self.exhausted,
        }
    }
}

impl<E: Endpoint + Pageable, T: FromJson> Pager<E, T> {
    /// The request whose collection is walked.
    pub closed spec fn request(&self) -> E {
        self.endpoint
    }

    /// The request for the next page.
    pub open spec fn next_page(&self) -> Page<'_, E> {
        Page { endpoint: &self.request(), offset: self@.offset, max: self@.page_size }
    }

    /// A walk that starts at offset 0 and leaves the page size to the
    /// service.
    pub fn new(endpoint: E) -> (pager: Self)
        ensures
            pager.request() == endpoint,
            pager@ == fresh::<T>(None),
    {
        let pager = Pager { endpoint, offset: 0, max: None, waiting: Vec::new(), exhausted: false };
        pager
    }

    /// A walk that starts at offset 0 and asks for pages of `max` items.
    pub fn with_page_size(endpoint: E, max: u64) -> (pager: Self)
        ensures
            pager.request() == endpoint,
            pager@ == fresh::<T>(Some(max)),
    {
        let pager = Pager {
            endpoint,
            offset: 0,
            max: Some(max),
            waiting: Vec::new(),
            exhausted: false,
        };
        pager
    }

    /// The offset at which the next page is asked for.
    pub fn offset(&self) -> (offset: u64)
        ensures
            offset == self@.offset,
    {
        self.offset
    }

    /// The page size that is asked for.
    pub fn page_size(&self) -> (size: Option<u64>)
        ensures
            size == self@.page_size,
    {
        self.max
    }

    /// The number of items received and not yet handed out.
    pub fn pending(&self) -> (count: usize)
        ensures
            count == self@.pending.len(),
    {
        self.waiting.len()
    }

    /// Whether no further page is asked for.
    pub fn is_exhausted(&self) -> (exhausted: bool)
        ensures
            exhausted == self@.exhausted,
    {
        self.exhausted
    }

    /// The request for the next page.
    pub fn page(&self) -> (page: Page<'_, E>)
        ensures
            page == self.next_page(),
    {
        Page { endpoint: &self.endpoint, offset: self.offset, max: self.max }
    }

    /// Takes a fetched page in, unless the walk is exhausted.
    pub fn accept(&mut self, page: Paged<T>)
        ensures
            final(self).request() == old(self).request(),
            final(self)@ == accepted(old(self)@, page),
    {
        if self.exhausted {
            return;
        }
        let Paged { items, pagination } = page;
        let count = items.len() as u64;
        if self.max.is_none() {
            self.max = Some(pagination.max);
        }
        if count == 0 || count < pagination.max || count > u64::MAX - self.offset {
            self.exhausted = true;
        }
        if count <= u64::MAX - self.offset {
            self.offset = self.offset + count;
        }
        let mut items = items;
        let mut reversed: Vec<T> = Vec::new();
        while items.len() > 0
            invariant
                items@ + reversed@.reverse() =~= page.items@,
            decreases items.len(),
        {
            let item = items.pop().unwrap();
            reversed.push(item);
        }
        reversed.append(&mut self.waiting);
        self.waiting = reversed;
        proof {
            assert(self@.pending =~= accepted(old(self)@, page).pending);
        }
    }

    /// Gives the walk up: no further page is asked for.
    pub fn give_up(&mut self)
        ensures
            final(self).request() == old(self).request(),
            final(self)@ == given_up(old(self)@),
    {
        self.exhausted = true;
    }

    /// Hands out the next of the items received, if one waits.
    pub fn take(&mut self) -> (item: Option<T>)
        ensures
            final(self).request() == old(self).request(),
            match item {
                Some(first) => old(self)@.pending.len() > 0 && first == old(self)@.pending[0]
                    && final(self)@ == handed_out(old(self)@),
                None => old(self)@.pending.len() == 0 && final(self)@ == old(self)@,
            },
    {
        let ghost before = self.waiting@;
        let item = self.waiting.pop();
        proof {
            if before.len() > 0 {
                assert(self.waiting@.reverse() =~= before.reverse().skip(1));
            }
        }
        item
    }

    /// Begins a pull: decides what the pull needs, given the base URL under
    /// which pages are asked for.
    ///
    /// An item that waits is handed out. With none waiting and the walk
    /// exhausted, the collection is at its end. Otherwise the request for the
    /// page at the walk's offset is assembled: it is to be sent, and the walk
    /// waits for [`end_pull`](Pager::end_pull); a request that cannot be
    /// assembled ends the walk.
    pub fn begin_pull(&mut self, base: &str) -> (pull: Pull<T>)
        ensures
            final(self).request() == old(self).request(),
            old(self)@.pending.len() > 0 ==> {
                &&& pull == Pull::Item(old(self)@.pending[0])
                &&& final(self)@ == handed_out(old(self)@)
            },
            old(self)@.pending.len() == 0 && old(self)@.exhausted ==> {
                &&& pull == Pull::<T>::End
                &&& final(self)@ == old(self)@
            },
            old(self)@.pending.len() == 0 && !old(self)@.exhausted ==> exists|
                request: Result<WireRequest, ApiError>,
            | #[trigger]
                assembles(&old(self).next_page(), base@, request) && match request {
                    Err(e) => pull == Pull::<T>::Failed(e) && final(self)@ == given_up(
                        old(self)@,
                    ),
                    Ok(r) => pull == Pull::<T>::Fetch(r) && final(self)@ == old(self)@,
                },
    {
        match self.take() {
            Some(item) => {
                return Pull::Item(item);
            },
            None => {},
        }
        if self.exhausted {
            return Pull::End;
        }
        let request = {
            let page = self.page();
            assemble(&page, base)
        };
        match request {
            Ok(request) => Pull::Fetch(request),
            Err(e) => {
                self.give_up();
                Pull::Failed(e)
            },
        }
    }

    /// Ends a pull that fetched a page, with the outcome of the fetch.
    ///
    /// A failure of the fetch is returned and ends the walk. A page that came
    /// is taken in and its first item is returned; an empty page ends the
    /// collection.
    pub fn end_pull(&mut self, outcome: Outcome) -> (pulled: Option<Result<T, ApiError>>)
        ensures
            final(self).request() == old(self).request(),
            exists|fetched: Result<Paged<T>, ApiError>| #[trigger]
                page_concludes(outcome, fetched) && stepped(
                    old(self)@,
                    fetched,
                    final(self)@,
                    pulled,
                ),
    {
        let fetched: Result<Paged<T>, ApiError> = conclude_page(outcome);
        match fetched {
            Err(e) => {
                self.give_up();
                Some(Err(e))
            },
            Ok(page) => {
                self.accept(page);
                match self.take() {
                    Some(item) => Some(Ok(item)),
                    None => None,
                }
            },
        }
    }

    /// Pulls the next item of the collection.
    ///
    /// An item that waits is handed out and nothing is sent. With none
    /// waiting and the walk exhausted, the collection is at its end: the
    /// result is `None` and nothing is sent. Otherwise exactly one page is
    /// fetched, at the walk's offset: `send` is called once, with the
    /// request for that page. A request that cannot be assembled and a
    /// failure of the fetch are returned and end the walk. A page that came
    /// is taken in and its first item is returned; an empty page ends the
    /// collection.
    pub fn next_item<C: Transport>(&mut self, transport: &mut C) -> (pulled: Option<
        Result<T, ApiError>,
    >)
        ensures
            final(self).request() == old(self).request(),
            old(self)@.pending.len() > 0 ==> {
                &&& pulled == Some(Ok::<T, ApiError>(old(self)@.pending[0]))
                &&& final(self)@ == handed_out(old(self)@)
                &&& *final(transport) == *old(transport)
            },
            old(self)@.pending.len() == 0 && old(self)@.exhausted ==> {
                &&& pulled is None
                &&& final(self)@ == old(self)@
                &&& *final(transport) == *old(transport)
            },
            old(self)@.pending.len() == 0 && !old(self)@.exhausted ==> exists|
                base: String,
                request: Result<WireRequest, ApiError>,
            |
                {
                    &&& #[trigger] call_ensures(C::base_url, (&*old(transport),), base)
                    &&& #[trigger] assembles(&old(self).next_page(), base@, request)
                    &&& match request {
                        Err(e) => {
                            &&& pulled == Some(Err::<T, ApiError>(e))
                            &&& final(self)@ == given_up(old(self)@)
                            &&& *final(transport) == *old(transport)
                        },
                        Ok(r) => exists|
                            sender: &mut C,
                            outcome: Outcome,
                            fetched: Result<Paged<T>, ApiError>,
                        |
                            {
                                &&& *sender == *old(transport)
                                &&& *final(sender) == *final(transport)
                                &&& #[trigger] call_ensures(C::send, (sender, &r), outcome)
                                &&& #[trigger] page_concludes(outcome, fetched)
                                &&& stepped(old(self)@, fetched, final(self)@, pulled)
                            },
                    }
                },
    {
        let base = transport.base_url();
        match self.begin_pull(base.as_str()) {
            Pull::Item(item) => Some(Ok(item)),
            Pull::End => None,
            Pull::Failed(e) => Some(Err(e)),
            Pull::Fetch(request) => {
                let outcome = transport.send(&request);
                self.end_pull(outcome)
            },
        }
    }
}

/// Starts a walk through the collection that `endpoint` lists.
pub fn paginate<E: Endpoint + Pageable, T: FromJson>(endpoint: E) -> (pager: Pager<E, T>)
    ensures
        pager.request() == endpoint,
        pager@ == fresh::<T>(None),
{
    Pager::new(endpoint)
}

} // verus!
