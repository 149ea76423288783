//! The debounced search controller: it turns a rapidly changing query state
//! into a correctly ordered sequence of search requests, applies a debounce
//! window to typed text, tracks pagination, and discards stale responses.
//!
//! The controller performs no I/O itself. A query change hands back a
//! [`DebounceTicket`]; the caller waits out the ticket's delay and feeds it
//! to [`SearchController::on_debounce_elapsed`], which either plans a
//! [`SearchRequest`] or reports that a newer change superseded the ticket.
//! The caller performs the planned request and feeds the outcome to
//! [`SearchController::on_search_success`] or
//! [`SearchController::on_search_error`]. Every request carries the
//! generation it was planned under; a response commits only while that
//! generation is still current, so an older generation's response can never
//! overwrite state set by a newer one, whatever order responses arrive in.

use vstd::prelude::*;

use crate::error::RemoteError;
use crate::query::{Query, ResultPage, SortField, SortOrder, PAGE_SIZE};
use crate::shows::MediathekShow;

verus! {

/// The debounce delay applied to typed text, in milliseconds.
pub const DEFAULT_DEBOUNCE_MS: u64 = 500;

/// One change of the query state: new text, a toggled flag, or a changed
/// sort setting.
#[derive(Debug)]
pub enum QueryChange {
    Text(String),
    Everywhere(bool),
    Future(bool),
    Field(SortField),
    Order(SortOrder),
}

/// The receipt for a scheduled dispatch: wait `delay_ms`, then hand the
/// ticket back to [`SearchController::on_debounce_elapsed`].
#[derive(Clone, Copy, Debug)]
pub struct DebounceTicket {
    pub generation: u64,
    pub delay_ms: u64,
}

/// A planned search request: the parameter snapshot to send, and the
/// generation to report the outcome under.
#[derive(Debug)]
pub struct SearchRequest {
    pub query: Query,
    pub generation: u64,
}

/// The abstract state of a [`SearchController`].
pub ghost struct ControllerModel {
    pub text: Seq<char>,
    pub search_everywhere: bool,
    pub include_future: bool,
    pub sort_by: SortField,
    pub sort_order: SortOrder,
    pub generation: nat,
    pub results: Seq<MediathekShow>,
    pub total_results: nat,
    pub debounce_ms: nat,
}

/// The state after one query change: the changed field is merged in, the
/// generation advances (superseding whatever is in flight), and an empty
/// text clears the results to the idle state without any request.
pub open spec fn merged(m: ControllerModel, c: QueryChange) -> ControllerModel {
    let base = match c {
        QueryChange::Text(s) => ControllerModel { text: s@, ..m },
        QueryChange::Everywhere(b) => ControllerModel { search_everywhere: b, ..m },
        QueryChange::Future(b) => ControllerModel { include_future: b, ..m },
        QueryChange::Field(f) => ControllerModel { sort_by: f, ..m },
        QueryChange::Order(o) => ControllerModel { sort_order: o, ..m },
    };
    if base.text.len() == 0 {
        ControllerModel {
            generation: m.generation + 1,
            results: Seq::empty(),
            total_results: 0,
            ..base
        }
    } else {
        ControllerModel { generation: m.generation + 1, ..base }
    }
}

/// The delay a change's dispatch waits: the debounce window for typed text,
/// immediate for filter and sort changes.
pub open spec fn change_delay(m: ControllerModel, c: QueryChange) -> nat {
    if c is Text {
        m.debounce_ms
    } else {
        0
    }
}

/// Whether an elapsed ticket for generation `g` still leads to a dispatch
/// in state `m`: it must be the current generation and the text non-empty.
pub open spec fn ticket_fires(m: ControllerModel, g: nat) -> bool {
    g == m.generation && m.text.len() > 0
}

/// Whether `q` is the snapshot of `m`'s parameters at `offset`, with the
/// fixed page size.
pub open spec fn snapshot_matches(m: ControllerModel, q: Query, offset: int) -> bool {
    &&& q.text@ == m.text
    &&& q.search_everywhere == m.search_everywhere
    &&& q.include_future == m.include_future
    &&& q.sort_by == m.sort_by
    &&& q.sort_order == m.sort_order
    &&& q.offset == offset
    &&& q.size == PAGE_SIZE
}

/// The state after a response for generation `g` at `offset` arrives with
/// `items` and a reported total of `total`: a response of the current
/// generation replaces the results when it answers a fresh dispatch
/// (`offset == 0`) and appends when it continues exactly at the current
/// end; everything else is stale and is dropped silently.
pub open spec fn committed(
    m: ControllerModel,
    g: nat,
    offset: int,
    items: Seq<MediathekShow>,
    total: nat,
) -> ControllerModel {
    if g == m.generation && offset == 0 {
        ControllerModel { results: items, total_results: total, ..m }
    } else if g == m.generation && offset == m.results.len() {
        ControllerModel { results: m.results + items, total_results: total, ..m }
    } else {
        m
    }
}

/// The debounced, generation-gated search controller. One instance owns the
/// query parameters, the visible result list, and the server-reported total
/// of one search view.
#[derive(Debug)]
pub struct SearchController {
    text: String,
    search_everywhere: bool,
    include_future: bool,
    sort_by: SortField,
    sort_order: SortOrder,
    generation: u64,
    results: Vec<MediathekShow>,
    total_results: u64,
    debounce_ms: u64,
}

impl View for SearchController {
    type V = ControllerModel;

    closed spec fn view(&self) -> ControllerModel {
        ControllerModel {
            text: self.text@,
            search_everywhere: self.search_everywhere,
            include_future: self.include_future,
            sort_by: self.sort_by,
            sort_order: self.sort_order,
            generation: self.generation as nat,
            results: self.results@,
            total_results: self.total_results as nat,
            debounce_ms: self.debounce_ms as nat,
        }
    }
}

impl SearchController {
    /// A fresh controller in the idle state: empty text, no results, the
    /// default search settings, and the given debounce window for text.
    pub fn new(debounce_ms: u64) -> (r: SearchController)
        ensures
            r@.text.len() == 0,
            r@.search_everywhere == false,
            r@.include_future == false,
            r@.sort_by == SortField::Timestamp,
            r@.sort_order == SortOrder::Descending,
            r@.generation == 0,
            r@.results.len() == 0,
            r@.total_results == 0,
            r@.debounce_ms == debounce_ms,
    {
        SearchController {
            text: String::new(),
            search_everywhere: false,
            include_future: false,
            sort_by: SortField::Timestamp,
            sort_order: SortOrder::Descending,
            generation: 0,
            results: Vec::new(),
            total_results: 0,
            debounce_ms,
        }
    }

    /// Merges one change into the query state. An empty resulting text
    /// clears the results and plans nothing; otherwise the returned ticket
    /// schedules a dispatch for the new generation after the change's
    /// delay. Either way the generation advances, so whatever was in
    /// flight before the change is superseded.
    pub fn on_query_changed(&mut self, change: QueryChange) -> (t: Option<DebounceTicket>)
        requires
            old(self)@.generation < u64::MAX,
        ensures
            final(self)@ == merged(old(self)@, change),
            final(self)@.text.len() == 0 ==> t is None,
            final(self)@.text.len() > 0 ==> (t matches Some(tk) && tk.generation
                == final(self)@.generation && tk.delay_ms == change_delay(old(self)@, change)),
    {
        let delay_ms: u64 = if change matches QueryChange::Text(_) {
            self.debounce_ms
        } else {
            0
        };
        match change {
            QueryChange::Text(s) => {
                self.text = s;
            },
            QueryChange::Everywhere(b) => {
                self.search_everywhere = b;
            },
            QueryChange::Future(b) => {
                self.include_future = b;
            },
            QueryChange::Field(f) => {
                self.sort_by = f;
            },
            QueryChange::Order(o) => {
                self.sort_order = o;
            },
        }
        self.generation = self.generation + 1;
        if self.text.as_str().is_empty() {
            self.results = Vec::new();
            self.total_results = 0;
            None
        } else {
            Some(DebounceTicket { generation: self.generation, delay_ms })
        }
    }

    /// Called when a ticket's delay has elapsed: plans the request for the
    /// ticket's generation, unless a newer change superseded the ticket in
    /// the meantime, in which case nothing is dispatched.
    pub fn on_debounce_elapsed(&self, ticket: DebounceTicket) -> (r: Option<SearchRequest>)
        ensures
            ticket_fires(self@, ticket.generation as nat) ==> (r matches Some(req)
                && snapshot_matches(self@, req.query, 0) && req.generation == ticket.generation),
            !ticket_fires(self@, ticket.generation as nat) ==> r is None,
    {
        if ticket.generation == self.generation && !self.text.as_str().is_empty() {
            Some(SearchRequest { query: self.query_props(0), generation: ticket.generation })
        } else {
            None
        }
    }

    /// Plans the continuation request for the next page: it starts exactly
    /// at the current end of the results and carries the current
    /// generation. With an empty text, or with every reported hit already
    /// loaded, there is nothing to fetch and nothing changes.
    pub fn load_more(&self) -> (r: Option<SearchRequest>)
        ensures
            self@.text.len() == 0 ==> r is None,
            self@.results.len() >= self@.total_results ==> r is None,
            self@.text.len() > 0 && self@.results.len() < self@.total_results ==> (r matches Some(
                req,
            ) && snapshot_matches(self@, req.query, self@.results.len() as int) && req.generation
                == self@.generation),
    {
        if self.text.as_str().is_empty() {
            return None;
        }
        let offset = self.results.len();
        if (offset as u64) >= self.total_results {
            return None;
        }
        Some(SearchRequest { query: self.query_props(offset), generation: self.generation })
    }

    /// Commits a successful response, per [`committed`]: a response of the
    /// current generation replaces the results when its offset is zero and
    /// appends when its offset continues exactly at the current end; a
    /// stale response is dropped silently.
    pub fn on_search_success(&mut self, generation: u64, offset: usize, page: ResultPage)
        ensures
            final(self)@ == committed(
                old(self)@,
                generation as nat,
                offset as int,
                page.items@,
                page.total_results as nat,
            ),
    {
        if generation != self.generation {
            return ;
        }
        if offset == 0 {
            self.results = page.items;
            self.total_results = page.total_results;
        } else if offset == self.results.len() {
            let mut items = page.items;
            self.results.append(&mut items);
            self.total_results = page.total_results;
        }
    }

    /// Reports a failed response: an error of the current generation is
    /// handed back for the caller's error sink, a stale one is dropped
    /// silently. The results and the total are left as they were.
    pub fn on_search_error(&self, generation: u64, error: RemoteError) -> (r: Option<RemoteError>)
        ensures
            generation == self@.generation ==> r == Some(error),
            generation != self@.generation ==> r is None,
    {
        if generation == self.generation {
            Some(error)
        } else {
            None
        }
    }

    /// The snapshot of the current parameters at the given offset.
    fn query_props(&self, offset: usize) -> (q: Query)
        ensures
            snapshot_matches(self@, q, offset as int),
    {
        Query {
            text: self.text.clone(),
            search_everywhere: self.search_everywhere,
            include_future: self.include_future,
            sort_by: self.sort_by,
            sort_order: self.sort_order,
            offset,
            size: PAGE_SIZE,
        }
    }

    /// The shows currently on display, in server order.
    pub fn results(&self) -> (r: &Vec<MediathekShow>)
        ensures
            r@ == self@.results,
    {
        &self.results
    }

    /// The server-reported total number of hits for the current query.
    pub fn total_results(&self) -> (r: u64)
        ensures
            r as nat == self@.total_results,
    {
        self.total_results
    }

    /// The current generation.
    pub fn generation(&self) -> (r: u64)
        ensures
            r as nat == self@.generation,
    {
        self.generation
    }

    /// Whether the backend reports more hits than are on display.
    pub fn more_available(&self) -> (r: bool)
        ensures
            r == (self@.results.len() < self@.total_results),
    {
        (self.results.len() as u64) < self.total_results
    }
}

/// The state after a whole sequence of query changes, applied in order.
pub open spec fn applied_changes(m: ControllerModel, cs: Seq<QueryChange>) -> ControllerModel
    decreases cs.len(),
{
    if cs.len() == 0 {
        m
    } else {
        applied_changes(merged(m, cs[0]), cs.drop_first())
    }
}

/// Every query change advances the generation by exactly one.
pub proof fn lemma_changes_advance_generation(m: ControllerModel, cs: Seq<QueryChange>)
    ensures
        applied_changes(m, cs).generation == m.generation + cs.len(),
    decreases cs.len(),
{
    if cs.len() > 0 {
        lemma_changes_advance_generation(merged(m, cs[0]), cs.drop_first());
    }
}

/// Of several query changes issued within one debounce window — so that no
/// ticket's delay elapsed before the following change arrived — every
/// ticket but the last one fails the generation check once it elapses;
/// only the last change's ticket can plan a request, and it does so
/// exactly when the text it left behind is non-empty.
pub proof fn lemma_only_last_change_dispatches(
    m: ControllerModel,
    cs: Seq<QueryChange>,
    i: int,
)
    requires
        0 <= i < cs.len(),
    ensures
        i < cs.len() - 1 ==> !ticket_fires(
            applied_changes(m, cs),
            applied_changes(m, cs.take(i + 1)).generation,
        ),
        i == cs.len() - 1 ==> ticket_fires(
            applied_changes(m, cs),
            applied_changes(m, cs.take(i + 1)).generation,
        ) == (applied_changes(m, cs).text.len() > 0),
{
    lemma_changes_advance_generation(m, cs.take(i + 1));
    lemma_changes_advance_generation(m, cs);
    if i == cs.len() - 1 {
        assert(cs.take(i + 1) =~= cs);
    }
}

/// A response of a superseded generation never changes the state, whatever
/// it carries and whenever it arrives.
pub proof fn lemma_stale_response_discarded(
    m: ControllerModel,
    g: nat,
    offset: int,
    items: Seq<MediathekShow>,
    total: nat,
)
    requires
        g != m.generation,
    ensures
        committed(m, g, offset, items, total) == m,
{
}

/// If a request of generation `g1` is still in flight when a newer
/// generation is current, and the newer generation's response commits
/// first, then `g1`'s late response changes nothing: the results reflect
/// only the newer response.
pub proof fn lemma_newer_generation_wins(
    m: ControllerModel,
    g1: nat,
    off1: int,
    items1: Seq<MediathekShow>,
    total1: nat,
    items2: Seq<MediathekShow>,
    total2: nat,
)
    requires
        g1 < m.generation,
    ensures
        committed(committed(m, m.generation, 0, items2, total2), g1, off1, items1, total1)
            == committed(m, m.generation, 0, items2, total2),
        committed(m, m.generation, 0, items2, total2).results == items2,
{
}

/// A continuation that starts exactly at the current end commits by
/// appending the returned items: the length grows by exactly the number
/// of items returned, the prefix that was on display is unchanged, and
/// the new tail is the returned page.
pub proof fn lemma_continuation_appends(
    m: ControllerModel,
    items: Seq<MediathekShow>,
    total: nat,
)
    ensures
        committed(m, m.generation, m.results.len() as int, items, total).results.len()
            == m.results.len() + items.len(),
        committed(m, m.generation, m.results.len() as int, items, total).results.take(
            m.results.len() as int,
        ) =~= m.results,
        committed(m, m.generation, m.results.len() as int, items, total).results.skip(
            m.results.len() as int,
        ) =~= items,
{
}

} // verus!
