//! Interpreting responses, and the state of walking through the pages of a
//! paginated list.
use vstd::prelude::*;
use vstd::string::StringExecFns;
use crate::Error;
use crate::ErrorView;
use crate::api::json::{
    JsonValue, JsonView, decode, find_member, json_parsed, json_view, member_index, members_view,
    object_members,
};

verus! {

/// Whether an HTTP status is a client error (400-499).
pub open spec fn is_client_error(status: u16) -> bool {
    400 <= status < 500
}

/// Whether an HTTP status is a server error (500-599).
pub open spec fn is_server_error(status: u16) -> bool {
    500 <= status < 600
}

/// Rejects client and server error statuses with
/// [`Error::HttpErrorResponse`].
pub fn check_status(status: u16) -> (r: Result<(), Error>)
    ensures
        r is Err <==> (is_client_error(status) || is_server_error(status)),
        r matches Err(e) ==> e@ == ErrorView::HttpErrorResponse(status),
{
    if 400 <= status && status < 500 {
        Err(Error::HttpErrorResponse(status))
    } else if 500 <= status && status < 600 {
        Err(Error::HttpErrorResponse(status))
    } else {
        Ok(())
    }
}

/// Rejects an empty response body, which can not hold JSON, with
/// [`Error::EmptyResponseBody`].
pub fn check_nonempty(status: u16, body: &[u8]) -> (r: Result<(), Error>)
    ensures
        r is Err <==> body@.len() == 0,
        r matches Err(e) ==> e@ == ErrorView::EmptyResponseBody(status),
{
    if body.len() == 0 {
        Err(Error::EmptyResponseBody(status))
    } else {
        Ok(())
    }
}

/// What a response that is expected to hold a JSON document gives: an error
/// status, an empty body and a body that is not JSON are errors (in this
/// order); otherwise the document.
pub open spec fn document_outcome(status: u16, body: Seq<u8>) -> Result<JsonView, ErrorView> {
    if is_client_error(status) || is_server_error(status) {
        Err(ErrorView::HttpErrorResponse(status))
    } else if body.len() == 0 {
        Err(ErrorView::EmptyResponseBody(status))
    } else {
        match json_parsed(body) {
            Ok(doc) => Ok(doc),
            Err(m) => Err(ErrorView::SerdeJsonError(m)),
        }
    }
}

/// The JSON document of a response.
pub fn response_document(status: u16, body: &[u8]) -> (r: Result<JsonValue, Error>)
    ensures
        match r {
            Ok(doc) => document_outcome(status, body@) == Ok::<JsonView, ErrorView>(doc@),
            Err(e) => document_outcome(status, body@) == Err::<JsonView, ErrorView>(e@),
        },
{
    check_status(status)?;
    check_nonempty(status, body)?;
    match decode(body) {
        Ok(doc) => Ok(doc),
        Err(m) => Err(Error::SerdeJsonError(m)),
    }
}

/// Return value from paged requests, includes the actual value as well as
/// pagination data
#[derive(Debug, Clone)]
pub struct ResponsePage<T> {
    /// The actual value returned by Redmine deserialized into a user provided type
    pub values: Vec<T>,
    /// The total number of values that could be returned by requesting all pages
    pub total_count: u64,
    /// The offset from the start (zero-based)
    pub offset: u64,
    /// How many entries were returned
    pub limit: u64,
}

/// The pagination data of a response and the (still undecoded) list of
/// values under the wrapper key.
#[derive(Debug)]
pub struct PageEnvelope {
    /// The total number of values that could be returned by requesting all pages
    pub total_count: u64,
    /// The offset from the start (zero-based)
    pub offset: u64,
    /// How many entries were returned
    pub limit: u64,
    /// The document under the wrapper key
    pub values: JsonValue,
}

/// A pagination number: missing, not a non-negative integer (both reported
/// with the name of the number), or the number.
pub open spec fn pagination_number(ms: Seq<(Seq<char>, JsonView)>, name: Seq<char>) -> Result<u64, ErrorView> {
    match find_member(ms, name) {
        None => Err(ErrorView::PaginationKeyMissing(name)),
        Some(JsonView::UInt(n)) => Ok(n),
        Some(_) => Err(ErrorView::PaginationKeyHasWrongType(name)),
    }
}

/// What the document of a paginated response holds: a document that is not
/// an object, a missing or malformed `total_count`, `offset` or `limit`
/// (checked in this order) or a missing wrapper key are errors; otherwise
/// the three numbers and the document under the wrapper key.
pub open spec fn page_document_outcome(status: u16, doc: JsonView, key: Seq<char>) -> Result<
    (u64, u64, u64, JsonView),
    ErrorView,
> {
    match doc {
        JsonView::Object(ms) => match pagination_number(ms, "total_count"@) {
            Err(e) => Err(e),
            Ok(total_count) => match pagination_number(ms, "offset"@) {
                Err(e) => Err(e),
                Ok(offset) => match pagination_number(ms, "limit"@) {
                    Err(e) => Err(e),
                    Ok(limit) => match find_member(ms, key) {
                        None => Err(ErrorView::PaginationKeyMissing(key)),
                        Some(v) => Ok((total_count, offset, limit, v)),
                    },
                },
            },
        },
        _ => Err(ErrorView::NonObjectResponseBody(status)),
    }
}

/// What a paginated response holds: an empty body and a body that is not
/// JSON are errors; otherwise what its document holds.
pub open spec fn page_outcome(status: u16, body: Seq<u8>, key: Seq<char>) -> Result<
    (u64, u64, u64, JsonView),
    ErrorView,
> {
    if body.len() == 0 {
        Err(ErrorView::EmptyResponseBody(status))
    } else {
        match json_parsed(body) {
            Err(m) => Err(ErrorView::SerdeJsonError(m)),
            Ok(doc) => page_document_outcome(status, doc, key),
        }
    }
}

/// The mathematical value of the result of [`parse_page`].
pub open spec fn page_result_view(r: Result<PageEnvelope, Error>) -> Result<(u64, u64, u64, JsonView), ErrorView> {
    match r {
        Ok(p) => Ok((p.total_count, p.offset, p.limit, p.values@)),
        Err(e) => Err(e@),
    }
}

fn pagination_number_of(members: &Vec<(String, JsonValue)>, name: &str) -> (r: Result<u64, Error>)
    ensures
        match r {
            Ok(n) => pagination_number(members_view(members@), name@) == Ok::<u64, ErrorView>(n),
            Err(e) => pagination_number(members_view(members@), name@) == Err::<u64, ErrorView>(e@),
        },
{
    match member_index(members, name) {
        None => Err(Error::PaginationKeyMissing(String::from_str(name))),
        Some(i) => match &members[i].1 {
            JsonValue::UInt(n) => Ok(*n),
            _ => Err(Error::PaginationKeyHasWrongType(String::from_str(name))),
        },
    }
}

/// Reads the pagination data and the list of values from the document of a
/// paginated response.
pub fn page_from_document(status: u16, doc: JsonValue, wrapper_key: &str) -> (r: Result<
    PageEnvelope,
    Error,
>)
    ensures
        page_result_view(r) == page_document_outcome(status, doc@, wrapper_key@),
{
    let mut members = match object_members(doc) {
        Some(m) => m,
        None => {
            return Err(Error::NonObjectResponseBody(status));
        },
    };
    let total_count = pagination_number_of(&members, "total_count")?;
    let offset = pagination_number_of(&members, "offset")?;
    let limit = pagination_number_of(&members, "limit")?;
    match member_index(&members, wrapper_key) {
        None => Err(Error::PaginationKeyMissing(String::from_str(wrapper_key))),
        Some(i) => {
            let (_, values) = members.remove(i);
            Ok(PageEnvelope { total_count, offset, limit, values })
        },
    }
}

/// Reads the pagination data and the list of values of a paginated response.
pub fn parse_page(status: u16, body: &[u8], wrapper_key: &str) -> (r: Result<PageEnvelope, Error>)
    ensures
        page_result_view(r) == page_outcome(status, body@, wrapper_key@),
{
    if body.len() == 0 {
        return Err(Error::EmptyResponseBody(status));
    }
    let doc = match decode(body) {
        Ok(d) => d,
        Err(m) => {
            return Err(Error::SerdeJsonError(m));
        },
    };
    page_from_document(status, doc, wrapper_key)
}


/// The number of values requested per page when walking through all pages.
pub const PAGE_LIMIT: u64 = 100;

/// The state of fetching all pages of a list one after the other: the offset
/// of the next page and the number of values per page.
#[derive(Debug, Clone, Copy)]
pub struct PageLoop {
    offset: u64,
    limit: u64,
}

impl PageLoop {
    /// The offset of the next page.
    pub closed spec fn offset_spec(&self) -> u64 {
        self.offset
    }

    /// The number of values per page.
    pub closed spec fn limit_spec(&self) -> u64 {
        self.limit
    }

    /// Start at offset 0 with 100 values per page.
    pub fn new() -> (r: PageLoop)
        ensures
            r.offset_spec() == 0,
            r.limit_spec() == PAGE_LIMIT,
    {
        PageLoop { offset: 0, limit: PAGE_LIMIT }
    }

    /// The offset of the next page.
    pub fn offset(&self) -> (r: u64)
        ensures
            r == self.offset_spec(),
    {
        self.offset
    }

    /// The number of values per page.
    pub fn limit(&self) -> (r: u64)
        ensures
            r == self.limit_spec(),
    {
        self.limit
    }

    /// Whether the pages have all been fetched once a page reported these
    /// numbers: that is so when the total count lies below the end of the page.
    pub open spec fn finished_by(total_count: u64, offset: u64, limit: u64) -> bool {
        total_count < offset + limit
    }

    /// Takes in the pagination data of the page just fetched and says whether
    /// it was the last one; if not, the next page starts where the page just
    /// fetched ended: at its reported offset plus its reported limit.
    pub fn after_page(&mut self, total_count: u64, offset: u64, limit: u64) -> (done: bool)
        requires
            offset + limit <= u64::MAX,
        ensures
            done == Self::finished_by(total_count, offset, limit),
            final(self).limit_spec() == old(self).limit_spec(),
            final(self).offset_spec() == if done {
                old(self).offset_spec()
            } else {
                (offset + limit) as u64
            },
    {
        if total_count < offset + limit {
            true
        } else {
            self.offset = offset + limit;
            false
        }
    }
}

/// What walking through a paginated list does next.
#[derive(Debug)]
pub enum Step<R> {
    /// hand out this value
    Yield(R),
    /// fetch the page at this offset with this limit
    Fetch { offset: u64, limit: u64 },
    /// all values have been handed out
    Done,
}

/// The state of walking through a paginated list value by value.
#[derive(Debug)]
pub struct PageCursor<R> {
    /// the offset to fetch next
    offset: u64,
    /// the limit for each fetch
    limit: u64,
    /// the cached total count value from the last request
    total_count: Option<u64>,
    /// the number of elements already yielded
    yielded: u64,
    /// the cached values from the last fetch that have not been
    /// consumed yet, in reverse order to allow pop to remove them
    reversed_rest: Vec<R>,
}

/// The mathematical value of a [`PageCursor`]; `pending` holds the values
/// of the last page not handed out yet, in the order of the page.
pub struct CursorView<R> {
    pub offset: u64,
    pub limit: u64,
    pub total_count: Option<u64>,
    pub yielded: u64,
    pub pending: Seq<R>,
}

impl<R> View for PageCursor<R> {
    type V = CursorView<R>;

    closed spec fn view(&self) -> CursorView<R> {
        CursorView {
            offset: self.offset,
            limit: self.limit,
            total_count: self.total_count,
            yielded: self.yielded,
            pending: self.reversed_rest@.reverse(),
        }
    }
}

/// The next step from a state: hand out the first pending value; stop when
/// the offset lies beyond the known total count; fetch the next page
/// otherwise.
pub open spec fn next_spec<R>(c: CursorView<R>) -> (CursorView<R>, Step<R>) {
    if c.pending.len() > 0 {
        (
            CursorView { yielded: (c.yielded + 1) as u64, pending: c.pending.drop_first(), ..c },
            Step::Yield(c.pending[0]),
        )
    } else if c.total_count matches Some(t) && c.offset > t {
        (c, Step::Done)
    } else {
        (c, Step::Fetch { offset: c.offset, limit: c.limit })
    }
}

/// The state after a fetched page, and the value handed out at once: the
/// total count is remembered, the next page starts after this one, and the
/// first value of the page, if any, is handed out.
pub open spec fn receive_spec<R>(
    c: CursorView<R>,
    values: Seq<R>,
    total_count: u64,
    offset: u64,
    limit: u64,
) -> (CursorView<R>, Option<R>) {
    let c2 = CursorView {
        total_count: Some(total_count),
        offset: (offset + limit) as u64,
        pending: values,
        ..c
    };
    if values.len() > 0 {
        (
            CursorView { yielded: (c.yielded + 1) as u64, pending: values.drop_first(), ..c2 },
            Some(values[0]),
        )
    } else {
        (c2, None)
    }
}

impl<R> PageCursor<R> {
    /// Before the first page: offset 0, 100 values per page, nothing known.
    pub fn new() -> (r: PageCursor<R>)
        ensures
            r@.offset == 0,
            r@.limit == PAGE_LIMIT,
            r@.total_count is None,
            r@.yielded == 0,
            r@.pending.len() == 0,
    {
        let r = PageCursor {
            offset: 0,
            limit: PAGE_LIMIT,
            total_count: None,
            yielded: 0,
            reversed_rest: Vec::new(),
        };
        assert(r@.pending =~= Seq::<R>::empty());
        r
    }

    /// The number of values handed out so far.
    pub fn yielded(&self) -> (r: u64)
        ensures
            r == self@.yielded,
    {
        self.yielded
    }

    /// The total count the last page reported, if a page was received.
    pub fn total_count(&self) -> (r: Option<u64>)
        ensures
            r == self@.total_count,
    {
        self.total_count
    }

    /// What to do next; a value handed out is counted.
    pub fn next_step(&mut self) -> (r: Step<R>)
        requires
            old(self)@.yielded < u64::MAX,
        ensures
            (final(self)@, r) == next_spec(old(self)@),
    {
        let ghost rest = self.reversed_rest@;
        if let Some(next) = self.reversed_rest.pop() {
            self.yielded = self.yielded + 1;
            assert(self.reversed_rest@.reverse() =~= rest.reverse().drop_first());
            return Step::Yield(next);
        }
        assert(rest.len() == 0);
        if let Some(total_count) = self.total_count {
            if self.offset > total_count {
                return Step::Done;
            }
        }
        Step::Fetch { offset: self.offset, limit: self.limit }
    }

    /// Takes in a fetched page and hands out its first value, if any.
    pub fn receive_page(&mut self, page: ResponsePage<R>) -> (r: Option<R>)
        requires
            page.offset + page.limit <= u64::MAX,
            old(self)@.yielded < u64::MAX,
        ensures
            (final(self)@, r) == receive_spec(
                old(self)@,
                page.values@,
                page.total_count,
                page.offset,
                page.limit,
            ),
    {
        let ResponsePage { values, total_count, offset, limit } = page;
        self.total_count = Some(total_count);
        self.offset = offset + limit;
        let ghost orig = values@;
        let mut values = values;
        let mut rev: Vec<R> = Vec::new();
        while values.len() > 0
            invariant
                values@.len() <= orig.len(),
                values@ == orig.subrange(0, values@.len() as int),
                rev@ == orig.subrange(values@.len() as int, orig.len() as int).reverse(),
            decreases values@.len(),
        {
            let ghost before = values@;
            match values.pop() {
                Some(x) => {
                    assert(x == orig[values@.len() as int]);
                    assert(values@ =~= orig.subrange(0, values@.len() as int));
                    rev.push(x);
                    assert(orig.subrange(values@.len() as int, orig.len() as int).reverse()
                        =~= orig.subrange(before.len() as int, orig.len() as int).reverse().push(x));
                },
                None => {},
            }
        }
        assert(orig.subrange(0, orig.len() as int) =~= orig);
        assert(rev@.reverse() =~= orig);
        self.reversed_rest = rev;
        let ghost full = self.reversed_rest@;
        if let Some(next) = self.reversed_rest.pop() {
            self.yielded = self.yielded + 1;
            assert(self.reversed_rest@.reverse() =~= full.reverse().drop_first());
            return Some(next);
        }
        assert(orig.len() == 0);
        None
    }

    /// Bounds on the number of values still to come: the pending values of
    /// the last page at least, and the total count less the values handed out
    /// at most; nothing is known before the first page.
    pub fn size_hint(&self) -> (r: (usize, Option<usize>))
        requires
            self@.total_count matches Some(t) ==> self@.yielded <= t,
        ensures
            r == match self@.total_count {
                Some(t) => (self@.pending.len() as usize, Some((t - self@.yielded) as usize)),
                None => (0usize, None::<usize>),
            },
    {
        if let Some(total_count) = self.total_count {
            (self.reversed_rest.len(), Some((total_count - self.yielded) as usize))
        } else {
            (0, None)
        }
    }
}

/// The state after `n` steps from `c`, and the steps taken, in order.
pub open spec fn run_steps<R>(c: CursorView<R>, n: nat) -> (CursorView<R>, Seq<Step<R>>)
    decreases n,
{
    if n == 0 {
        (c, Seq::empty())
    } else {
        let (c1, s) = next_spec(c);
        let (c2, rest) = run_steps(c1, (n - 1) as nat);
        (c2, seq![s] + rest)
    }
}

/// The steps that hand out `values`, one by one.
pub open spec fn yields<R>(values: Seq<R>) -> Seq<Step<R>> {
    values.map_values(|v: R| Step::Yield(v))
}

/// The pending values are handed out one per step, in the order of the
/// page, each counted; nothing else changes.
pub proof fn lemma_pending_handed_out_in_order<R>(c: CursorView<R>)
    requires
        c.yielded + c.pending.len() <= u64::MAX,
    ensures
        run_steps(c, c.pending.len()).1 == yields(c.pending),
        run_steps(c, c.pending.len()).0 == (CursorView {
            yielded: (c.yielded + c.pending.len()) as u64,
            pending: Seq::<R>::empty(),
            ..c
        }),
    decreases c.pending.len(),
{
    if c.pending.len() > 0 {
        let (c1, s) = next_spec(c);
        lemma_pending_handed_out_in_order(c1);
        assert(yields(c.pending) =~= seq![s] + yields(c1.pending));
    } else {
        assert(yields(c.pending) =~= Seq::<Step<R>>::empty());
        assert(c.pending =~= Seq::<R>::empty());
    }
}

/// A page is handed out in the order of its values: the first at once, the
/// others by the following steps; then the cursor stops when the end of the
/// page lies beyond the total count the page reported, and asks for the page
/// after it otherwise.
pub proof fn lemma_page_handed_out_in_order<R>(
    c: CursorView<R>,
    values: Seq<R>,
    total_count: u64,
    offset: u64,
    limit: u64,
)
    requires
        offset + limit <= u64::MAX,
        c.yielded + values.len() <= u64::MAX,
        values.len() > 0,
    ensures
        ({
            let (c1, first) = receive_spec(c, values, total_count, offset, limit);
            let (c2, steps) = run_steps(c1, (values.len() - 1) as nat);
            &&& first == Some(values[0])
            &&& steps == yields(values.drop_first())
            &&& c2.yielded == c.yielded + values.len()
            &&& next_spec(c2).1 == if offset + limit > total_count {
                Step::<R>::Done
            } else {
                Step::<R>::Fetch { offset: (offset + limit) as u64, limit: c.limit }
            }
        }),
{
    let (c1, first) = receive_spec(c, values, total_count, offset, limit);
    assert(c1.pending == values.drop_first());
    lemma_pending_handed_out_in_order(c1);
}

/// Once the cursor stops, it stays stopped: the state does not change.
pub proof fn lemma_done_is_final<R>(c: CursorView<R>)
    requires
        next_spec(c).1 is Done,
    ensures
        next_spec(c).0 == c,
        next_spec(next_spec(c).0).1 is Done,
{
}

/// The offsets at which a walk through all pages fetches, starting at
/// `start`, given the pagination data (total count, offset, limit) that the
/// pages report in turn: after each page that does not finish the walk (see
/// [`PageLoop::finished_by`]) the next page starts at the reported offset plus
/// the reported limit.
pub open spec fn walk_offsets(start: int, reports: Seq<(u64, u64, u64)>) -> Seq<int>
    decreases reports.len(),
{
    if reports.len() == 0 {
        Seq::empty()
    } else if PageLoop::finished_by(reports[0].0, reports[0].1, reports[0].2) {
        seq![start]
    } else {
        seq![start] + walk_offsets(reports[0].1 + reports[0].2, reports.drop_first())
    }
}

/// A walk through all pages fetches first at `start` and then each page
/// where the page before it ended (reported offset plus reported limit), and
/// stops with the first page that reports a total count below its end.
pub proof fn lemma_walk_offsets(start: int, reports: Seq<(u64, u64, u64)>)
    ensures
        walk_offsets(start, reports).len() <= reports.len(),
        reports.len() > 0 ==> walk_offsets(start, reports).len() >= 1 && walk_offsets(
            start,
            reports,
        )[0] == start,
        forall|i: int|
            0 < i < walk_offsets(start, reports).len() ==> #[trigger] walk_offsets(start, reports)[i]
                == reports[i - 1].1 + reports[i - 1].2,
        forall|i: int|
            0 <= i < walk_offsets(start, reports).len() - 1 ==> !PageLoop::finished_by(
                #[trigger] reports[i].0,
                reports[i].1,
                reports[i].2,
            ),
        forall|i: int|
            0 <= i < reports.len() && PageLoop::finished_by(
                #[trigger] reports[i].0,
                reports[i].1,
                reports[i].2,
            ) ==> walk_offsets(start, reports).len() <= i + 1,
    decreases reports.len(),
{
    if reports.len() > 0 && !PageLoop::finished_by(reports[0].0, reports[0].1, reports[0].2) {
        let rest = reports.drop_first();
        let next = reports[0].1 + reports[0].2;
        lemma_walk_offsets(next, rest);
        let w = walk_offsets(start, reports);
        let wr = walk_offsets(next, rest);
        assert forall|i: int| 0 < i < w.len() implies #[trigger] w[i] == reports[i - 1].1
            + reports[i - 1].2 by {
            assert(w[i] == wr[i - 1]);
            if i > 1 {
                assert(reports[i - 1] == rest[i - 2]);
            }
        }
        assert forall|i: int| 0 <= i < w.len() - 1 implies !PageLoop::finished_by(
            #[trigger] reports[i].0,
            reports[i].1,
            reports[i].2,
        ) by {
            if i > 0 {
                assert(reports[i] == rest[i - 1]);
            }
        }
        assert forall|i: int|
            0 <= i < reports.len() && PageLoop::finished_by(
                #[trigger] reports[i].0,
                reports[i].1,
                reports[i].2,
            ) implies w.len() <= i + 1 by {
            if i > 0 {
                assert(reports[i] == rest[i - 1]);
            }
        }
    }
}

/// The values that a server holding `items` sends for the page at `offset`
/// when its pages hold `page_size` values: those from `offset` on, at most
/// `page_size` of them.
pub open spec fn server_page<T>(items: Seq<T>, page_size: int, offset: int) -> Seq<T> {
    if 0 <= offset < items.len() {
        items.subrange(
            offset,
            if offset + page_size < items.len() {
                offset + page_size
            } else {
                items.len() as int
            },
        )
    } else {
        Seq::empty()
    }
}

/// The values a walk through all pages gathers from such a server (which
/// reports the total count, the requested offset and its page size), from
/// the page at `offset` on: each page's values, then, unless the page
/// finishes the walk (see [`PageLoop::finished_by`]), those from where the
/// page ended, as [`PageLoop::after_page`] moves on.
pub open spec fn gathered_pages<T>(items: Seq<T>, page_size: int, offset: int) -> Seq<T>
    decreases items.len() - offset,
{
    if page_size < 1 || offset < 0 || offset > items.len() {
        Seq::empty()
    } else if items.len() < offset + page_size {
        server_page(items, page_size, offset)
    } else {
        server_page(items, page_size, offset) + gathered_pages(items, page_size, offset + page_size)
    }
}

/// Gathering the pages from `offset` on gives every item from `offset` on,
/// each once, in the server's order.
pub proof fn lemma_gathered_pages_from<T>(items: Seq<T>, page_size: int, offset: int)
    requires
        page_size >= 1,
        0 <= offset <= items.len(),
    ensures
        gathered_pages(items, page_size, offset) == items.subrange(offset, items.len() as int),
    decreases items.len() - offset,
{
    if items.len() < offset + page_size {
        if offset == items.len() {
            assert(items.subrange(offset, items.len() as int) =~= Seq::<T>::empty());
        }
    } else {
        lemma_gathered_pages_from(items, page_size, offset + page_size);
        assert(items.subrange(offset, offset + page_size) + items.subrange(
            offset + page_size,
            items.len() as int,
        ) =~= items.subrange(offset, items.len() as int));
        if offset + page_size == items.len() {
            assert(server_page(items, page_size, offset) =~= items.subrange(offset, offset + page_size));
        }
    }
}

/// Walking through all pages of a server that holds `items` in pages of
/// `page_size` values gathers every item exactly once, in the server's order.
pub proof fn lemma_all_pages_gather_every_item<T>(items: Seq<T>, page_size: int)
    requires
        page_size >= 1,
    ensures
        gathered_pages(items, page_size, 0) == items,
{
    lemma_gathered_pages_from(items, page_size, 0);
    assert(items.subrange(0, items.len() as int) =~= items);
}

/// One call of the iterator over all values (one step, and where the step is
/// a fetch, the page that a server holding `items` in pages of `page_size`
/// values sends for it): the state after it and what the call hands out.
pub open spec fn iterator_next<T>(c: CursorView<T>, items: Seq<T>, page_size: u64) -> (
    CursorView<T>,
    Option<T>,
) {
    let (c1, step) = next_spec(c);
    match step {
        Step::Yield(v) => (c1, Some(v)),
        Step::Done => (c1, None),
        Step::Fetch { offset, limit } => receive_spec(
            c1,
            server_page(items, page_size as int, offset as int),
            items.len() as u64,
            offset,
            page_size,
        ),
    }
}

/// What `n` successive calls of the iterator hand out.
pub open spec fn iterate<T>(c: CursorView<T>, items: Seq<T>, page_size: u64, n: nat) -> Seq<Option<T>>
    decreases n,
{
    if n == 0 {
        Seq::empty()
    } else {
        let (c1, out) = iterator_next(c, items, page_size);
        seq![out] + iterate(c1, items, page_size, (n - 1) as nat)
    }
}

/// The state of a cursor before the first page, as [`PageCursor::new`] makes it.
pub open spec fn cursor_start<T>() -> CursorView<T> {
    CursorView { offset: 0, limit: PAGE_LIMIT, total_count: None, yielded: 0, pending: Seq::empty() }
}

/// The states a walk against a server holding `items` passes through: the
/// start, or a state that knows the total count, whose pending values are the
/// items from the number handed out up to the next offset.
pub open spec fn walk_state<T>(c: CursorView<T>, items: Seq<T>) -> bool {
    let n = items.len();
    ||| (c.total_count is None && c.offset == 0 && c.pending.len() == 0 && c.yielded == 0)
    ||| {
        &&& c.total_count == Some(n as u64)
        &&& c.yielded <= n
        &&& c.yielded <= c.offset
        &&& c.pending == items.subrange(
            c.yielded as int,
            if c.offset < n {
                c.offset as int
            } else {
                n as int
            },
        )
    }
}

proof fn lemma_iterator_step<T>(c: CursorView<T>, items: Seq<T>, page_size: u64)
    requires
        walk_state(c, items),
        page_size >= 1,
        items.len() + page_size <= u64::MAX,
    ensures
        ({
            let (c1, out) = iterator_next(c, items, page_size);
            &&& walk_state(c1, items)
            &&& out == if c.yielded < items.len() {
                Some(items[c.yielded as int])
            } else {
                None::<T>
            }
            &&& c1.yielded == if c.yielded < items.len() {
                c.yielded + 1
            } else {
                c.yielded as int
            }
        }),
{
    let n = items.len();
    let (c1, out) = iterator_next(c, items, page_size);
    if c.pending.len() > 0 {
        assert(c.pending[0] == items[c.yielded as int]);
        assert(c1.pending =~= items.subrange(
            c1.yielded as int,
            if c.offset < n {
                c.offset as int
            } else {
                n as int
            },
        ));
    } else if c.total_count matches Some(t) && c.offset > t {
        assert(c.yielded == n);
    } else {
        let o = c.offset as int;
        assert(c.yielded == o);
        let values = server_page(items, page_size as int, o);
        if o < n {
            assert(values[0] == items[o]);
            assert(c1.pending =~= values.drop_first());
            assert(values.drop_first() =~= items.subrange(
                o + 1,
                if o + page_size < n {
                    o + page_size
                } else {
                    n as int
                },
            ));
        } else {
            assert(values.len() == 0);
            assert(c1.pending =~= items.subrange(n as int, n as int));
        }
    }
}

/// From any state of the walk, successive calls hand out the items from the
/// number handed out on, one per call, in the server's order, and after the
/// last item only `None`.
pub proof fn lemma_iterate_from<T>(c: CursorView<T>, items: Seq<T>, page_size: u64, k: nat)
    requires
        walk_state(c, items),
        page_size >= 1,
        items.len() + page_size <= u64::MAX,
    ensures
        iterate(c, items, page_size, k).len() == k,
        forall|i: int|
            0 <= i < k ==> #[trigger] iterate(c, items, page_size, k)[i] == if c.yielded + i
                < items.len() {
                Some(items[c.yielded + i])
            } else {
                None::<T>
            },
    decreases k,
{
    if k > 0 {
        lemma_iterator_step(c, items, page_size);
        let (c1, out) = iterator_next(c, items, page_size);
        lemma_iterate_from(c1, items, page_size, (k - 1) as nat);
        let it = iterate(c, items, page_size, k);
        let rest = iterate(c1, items, page_size, (k - 1) as nat);
        assert forall|i: int| 0 <= i < k implies #[trigger] it[i] == if c.yielded + i
            < items.len() {
            Some(items[c.yielded + i])
        } else {
            None::<T>
        } by {
            if i > 0 {
                assert(it[i] == rest[i - 1]);
            }
        }
    }
}

/// The iterator over all values of a server that holds `items` in pages of
/// `page_size` values, started as [`PageCursor::new`] starts it, hands out
/// every item exactly once, in the server's order, and then `None` on every
/// later call.
pub proof fn lemma_iterator_yields_every_item<T>(items: Seq<T>, page_size: u64, k: nat)
    requires
        page_size >= 1,
        items.len() + page_size <= u64::MAX,
    ensures
        iterate(cursor_start::<T>(), items, page_size, k).len() == k,
        forall|i: int|
            0 <= i < k ==> #[trigger] iterate(cursor_start::<T>(), items, page_size, k)[i] == if i
                < items.len() {
                Some(items[i])
            } else {
                None::<T>
            },
{
    lemma_iterate_from(cursor_start::<T>(), items, page_size, k);
}

/// Against the same server, the iterator over all values and the walk through
/// all pages give the same values in the same order: each call of the
/// iterator hands out the next value the walk gathers, and once the walk's
/// values are used up, every later call hands out `None`.
pub proof fn lemma_iterator_matches_all_pages<T>(items: Seq<T>, page_size: u64, k: nat)
    requires
        page_size >= 1,
        items.len() + page_size <= u64::MAX,
    ensures
        iterate(cursor_start::<T>(), items, page_size, k).len() == k,
        forall|i: int|
            0 <= i < k ==> #[trigger] iterate(cursor_start::<T>(), items, page_size, k)[i] == if i
                < gathered_pages(items, page_size as int, 0).len() {
                Some(gathered_pages(items, page_size as int, 0)[i])
            } else {
                None::<T>
            },
{
    lemma_iterator_yields_every_item(items, page_size, k);
    lemma_all_pages_gather_every_item(items, page_size as int);
}

} // verus!
