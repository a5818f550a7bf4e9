//! The search orchestrator: which mirror and page to ask for next, and what
//! each answer does to the accumulated records.
//!
//! Fetching is done by the caller. It asks the state for the next request,
//! performs it, and reports back either that the mirror was unavailable or
//! the results table that the page held.

use vstd::prelude::*;
use crate::markup::{
    read_results_table, results_table, rows_view, table_selectors_compile, table_view, CellView, Row,
    SelectorError,
};
use crate::record::{extract, extract_spec, extracted_view, Record, RecordView};
use crate::text::{decimal, push_decimal};

verus! {

/// The number of mirrors that serve the catalog.
pub const MIRROR_COUNT: usize = 3;

/// The host names of the mirrors, in the order in which they are tried.
pub open spec fn mirror_domains() -> Seq<Seq<char>> {
    seq!["libgen.rs"@, "libgen.is"@, "libgen.st"@]
}

/// The host name of mirror `i`, in the order in which they are tried.
pub fn mirror_domain(i: usize) -> (r: &'static str)
    requires
        i < MIRROR_COUNT,
    ensures
        r@ == mirror_domains()[i as int],
{
    if i == 0 {
        "libgen.rs"
    } else if i == 1 {
        "libgen.is"
    } else {
        "libgen.st"
    }
}

/// The address of results page `page` for `term` on mirror `domain`.
pub open spec fn query_url_spec(domain: Seq<char>, term: Seq<char>, page: nat) -> Seq<char> {
    "https://"@ + domain + "/search.php?res=100&req="@ + term + "&page="@ + decimal(page)
}

/// Builds the address of results page `page` for `term` on mirror `domain`.
pub fn query_url(domain: &str, term: &str, page: u64) -> (r: String)
    ensures
        r@ == query_url_spec(domain@, term@, page as nat),
{
    let mut s = String::from_str("https://");
    s.append(domain);
    s.append("/search.php?res=100&req=");
    s.append(term);
    s.append("&page=");
    push_decimal(&mut s, page);
    s
}

/// The records read from the data rows `rows`, in row order; rows with a
/// structural problem are skipped.
pub open spec fn page_records(rows: Seq<Seq<CellView>>) -> Seq<RecordView>
    decreases rows.len(),
{
    if rows.len() == 0 {
        Seq::empty()
    } else {
        let rest = page_records(rows.drop_last());
        match extract_spec(rows.last()) {
            Ok(r) => rest.push(r),
            Err(_) => rest,
        }
    }
}

/// The records of a results table: the first row is the header.
pub open spec fn table_records(table: Seq<Seq<CellView>>) -> Seq<RecordView> {
    page_records(table.drop_first())
}

/// The records of the tables `tables`, page by page, each in row order.
pub open spec fn records_of_pages(tables: Seq<Seq<Seq<CellView>>>) -> Seq<RecordView>
    decreases tables.len(),
{
    if tables.len() == 0 {
        Seq::empty()
    } else {
        records_of_pages(tables.drop_last()) + table_records(tables.last())
    }
}

/// The views of a sequence of records.
pub open spec fn views(v: Seq<Record>) -> Seq<RecordView> {
    v.map_values(|r: Record| r@)
}

/// Where a search stands.
#[derive(Clone, Copy, Debug, PartialEq, Eq, Structural)]
pub enum Phase {
    /// More pages are to be fetched.
    Searching,
    /// The search is over; the records are final.
    Finished,
    /// Every mirror failed on the same page.
    Failed,
}

/// What one fetch of the current page gave.
pub enum PageEvent {
    /// Transport failure or a status other than success.
    Unavailable,
    /// A page without a results table.
    NoTable,
    /// A page with a results table of these rows, header first.
    Table(Seq<Seq<CellView>>),
}

/// A search as mathematical values.
pub struct SearchModel {
    pub mirror_count: nat,
    pub domain_index: nat,
    pub page_number: nat,
    pub records: Seq<RecordView>,
    pub phase: Phase,
}

/// The state of a search before its first request.
pub open spec fn initial(mirror_count: nat) -> SearchModel {
    SearchModel {
        mirror_count,
        domain_index: 0,
        page_number: 1,
        records: Seq::empty(),
        phase: Phase::Searching,
    }
}

/// The state after one answer. A failed mirror hands the same page to the
/// next one, or fails the search when it was the last; a page without a
/// table means no results at all; a table with no data rows ends the
/// search; any other table adds its records and moves to the next page on
/// the same mirror.
pub open spec fn step(s: SearchModel, e: PageEvent) -> SearchModel {
    if s.phase != Phase::Searching {
        s
    } else {
        match e {
            PageEvent::Unavailable => if s.domain_index + 1 < s.mirror_count {
                SearchModel { domain_index: s.domain_index + 1, ..s }
            } else {
                SearchModel { phase: Phase::Failed, ..s }
            },
            PageEvent::NoTable => SearchModel {
                records: Seq::empty(),
                phase: Phase::Finished,
                ..s
            },
            PageEvent::Table(rows) => if rows.len() <= 1 {
                SearchModel { phase: Phase::Finished, ..s }
            } else {
                SearchModel {
                    records: s.records + table_records(rows),
                    page_number: s.page_number + 1,
                    ..s
                }
            },
        }
    }
}

/// The state after the answers `events`, in order.
pub open spec fn run(s: SearchModel, events: Seq<PageEvent>) -> SearchModel
    decreases events.len(),
{
    if events.len() == 0 {
        s
    } else {
        step(run(s, events.drop_last()), events.last())
    }
}

/// The answer that a fetched page gives, as an event.
pub open spec fn table_event(table: Option<Seq<Seq<CellView>>>) -> PageEvent {
    match table {
        Some(rows) => PageEvent::Table(rows),
        None => PageEvent::NoTable,
    }
}

/// The answers that fetching the tables `tables` in turn gives.
pub open spec fn table_events(tables: Seq<Seq<Seq<CellView>>>) -> Seq<PageEvent> {
    tables.map_values(|t: Seq<Seq<CellView>>| PageEvent::Table(t))
}

/// `k` answers in a row that the mirror asked was unavailable.
pub open spec fn outages(k: nat) -> Seq<PageEvent> {
    Seq::new(k, |i: int| PageEvent::Unavailable)
}

/// Every table in `tables` has at least one data row below its header.
pub open spec fn all_have_data(tables: Seq<Seq<Seq<CellView>>>) -> bool {
    forall|i: int| 0 <= i < tables.len() ==> #[trigger] tables[i].len() >= 2
}

/// Once a search has finished or failed, further answers change nothing.
pub proof fn lemma_settled_search_stays(s: SearchModel, events: Seq<PageEvent>)
    requires
        s.phase != Phase::Searching,
    ensures
        run(s, events) == s,
    decreases events.len(),
{
    if events.len() > 0 {
        lemma_settled_search_stays(s, events.drop_last());
    }
}

/// Fetching the pages `tables` in turn, each with data rows, appends their
/// records page by page and each page in row order, to what the search had
/// already gathered; it stays on the same mirror and moves on by one page
/// per table. The outcome depends on the pages alone, so the same pages give
/// the same records in the same order on every repetition.
pub proof fn lemma_aggregation_order(s: SearchModel, tables: Seq<Seq<Seq<CellView>>>)
    requires
        s.phase == Phase::Searching,
        all_have_data(tables),
    ensures
        run(s, table_events(tables)) == (SearchModel {
            records: s.records + records_of_pages(tables),
            page_number: s.page_number + tables.len(),
            ..s
        }),
    decreases tables.len(),
{
    if tables.len() == 0 {
        assert(s.records + records_of_pages(tables) =~= s.records);
        assert(table_events(tables) =~= Seq::<PageEvent>::empty());
    } else {
        let front = tables.drop_last();
        assert(all_have_data(front)) by {
            assert forall|i: int| 0 <= i < front.len() implies #[trigger] front[i].len() >= 2 by {
                assert(front[i] == tables[i]);
            }
        }
        lemma_aggregation_order(s, front);
        assert(table_events(tables).drop_last() =~= table_events(front));
        assert(tables[tables.len() - 1].len() >= 2);
        assert(s.records + records_of_pages(front) + table_records(tables.last())
            =~= s.records + records_of_pages(tables));
    }
}

/// Pagination ends on the data: when pages `1..n-1` hold the tables `tables`
/// with data rows and page `n` holds a table of its header row alone, the
/// search finishes with exactly the records of the earlier pages, and no
/// later answer changes that.
pub proof fn lemma_pagination_terminates(
    mirror_count: nat,
    tables: Seq<Seq<Seq<CellView>>>,
    header_only: Seq<Seq<CellView>>,
    later: Seq<PageEvent>,
)
    requires
        mirror_count > 0,
        all_have_data(tables),
        header_only.len() == 1,
    ensures
        run(initial(mirror_count), table_events(tables).push(PageEvent::Table(header_only)))
            == (SearchModel {
                records: records_of_pages(tables),
                page_number: tables.len() + 1,
                phase: Phase::Finished,
                ..initial(mirror_count)
            }),
        run(
            run(initial(mirror_count), table_events(tables).push(PageEvent::Table(header_only))),
            later,
        ) == run(initial(mirror_count), table_events(tables).push(PageEvent::Table(header_only))),
{
    let s = initial(mirror_count);
    lemma_aggregation_order(s, tables);
    let events = table_events(tables).push(PageEvent::Table(header_only));
    assert(events.drop_last() =~= table_events(tables));
    assert(s.records + records_of_pages(tables) =~= records_of_pages(tables));
    lemma_settled_search_stays(run(s, events), later);
}

/// While mirrors remain, each outage moves the same page to the next mirror.
proof fn lemma_outages_advance(mirror_count: nat, k: nat)
    requires
        k < mirror_count,
    ensures
        run(initial(mirror_count), outages(k)) == (SearchModel {
            domain_index: k,
            ..initial(mirror_count)
        }),
    decreases k,
{
    if k > 0 {
        lemma_outages_advance(mirror_count, (k - 1) as nat);
        assert(outages(k).drop_last() =~= outages((k - 1) as nat));
    } else {
        assert(outages(k) =~= Seq::<PageEvent>::empty());
    }
}

/// Failover exhaustion: when every mirror is unavailable, the search asks
/// each of the `mirror_count` mirrors for the first page exactly once, in
/// order, and then fails; it asks nothing more.
pub proof fn lemma_failover_exhaustion(mirror_count: nat, later: Seq<PageEvent>)
    requires
        mirror_count > 0,
    ensures
        forall|k: nat| k < mirror_count ==> #[trigger] run(initial(mirror_count), outages(k)) == (
        SearchModel { domain_index: k, ..initial(mirror_count) }),
        run(initial(mirror_count), outages(mirror_count)) == (SearchModel {
            domain_index: (mirror_count - 1) as nat,
            phase: Phase::Failed,
            ..initial(mirror_count)
        }),
        run(run(initial(mirror_count), outages(mirror_count)), later) == run(
            initial(mirror_count),
            outages(mirror_count),
        ),
{
    assert forall|k: nat| k < mirror_count implies #[trigger] run(initial(mirror_count), outages(k))
        == (SearchModel { domain_index: k, ..initial(mirror_count) }) by {
        lemma_outages_advance(mirror_count, k);
    }
    let last = (mirror_count - 1) as nat;
    lemma_outages_advance(mirror_count, last);
    assert(outages(mirror_count).drop_last() =~= outages(last));
    lemma_settled_search_stays(run(initial(mirror_count), outages(mirror_count)), later);
}

/// The state of one search call.
pub struct SearchState {
    mirror_count: usize,
    domain_index: usize,
    page_number: u64,
    records: Vec<Record>,
    phase: Phase,
}

impl View for SearchState {
    type V = SearchModel;

    closed spec fn view(&self) -> SearchModel {
        SearchModel {
            mirror_count: self.mirror_count as nat,
            domain_index: self.domain_index as nat,
            page_number: self.page_number as nat,
            records: views(self.records@),
            phase: self.phase,
        }
    }
}

impl SearchState {
    /// The state's invariant: the cursor stays on a mirror, pages count from one.
    pub closed spec fn wf(&self) -> bool {
        &&& self.domain_index < self.mirror_count
        &&& self.page_number >= 1
    }

    /// A search over `mirror_count` mirrors, at mirror 0 and page 1.
    pub fn new(mirror_count: usize) -> (r: SearchState)
        requires
            mirror_count > 0,
        ensures
            r.wf(),
            r@ == initial(mirror_count as nat),
    {
        let r = SearchState {
            mirror_count,
            domain_index: 0,
            page_number: 1,
            records: Vec::new(),
            phase: Phase::Searching,
        };
        assert(views(r.records@) =~= Seq::empty());
        r
    }

    /// The mirror to ask next.
    pub fn domain_index(&self) -> (r: usize)
        ensures
            r == self@.domain_index,
    {
        self.domain_index
    }

    /// The page to ask for next.
    pub fn page_number(&self) -> (r: u64)
        ensures
            r == self@.page_number,
    {
        self.page_number
    }

    /// Where the search stands.
    pub fn phase(&self) -> (r: Phase)
        ensures
            r == self@.phase,
    {
        self.phase
    }

    /// The records gathered so far, in page-then-row order.
    pub fn records(&self) -> (r: &Vec<Record>)
        ensures
            views(r@) == self@.records,
    {
        &self.records
    }

    /// Ends the search and hands over its records.
    pub fn into_records(self) -> (r: Vec<Record>)
        ensures
            views(r@) == self@.records,
    {
        self.records
    }

    /// The current mirror could not serve the current page.
    pub fn on_unavailable(&mut self)
        requires
            old(self).wf(),
        ensures
            final(self).wf(),
            final(self)@ == step(old(self)@, PageEvent::Unavailable),
    {
        if self.phase != Phase::Searching {
            return;
        }
        if self.domain_index + 1 < self.mirror_count {
            self.domain_index = self.domain_index + 1;
        } else {
            self.phase = Phase::Failed;
        }
    }

    /// The current page was fetched; `table` holds the rows of its results
    /// table, header first, or `None` where it had none.
    pub fn on_page(&mut self, table: Option<Vec<Row>>)
        requires
            old(self).wf(),
            old(self)@.page_number < u64::MAX,
        ensures
            final(self).wf(),
            final(self)@ == step(old(self)@, table_event(table_view(table))),
    {
        if self.phase != Phase::Searching {
            return;
        }
        match table {
            None => {
                self.records = Vec::new();
                self.phase = Phase::Finished;
                assert(views(self.records@) =~= Seq::empty());
            },
            Some(rows) => {
                if rows.len() <= 1 {
                    self.phase = Phase::Finished;
                } else {
                    let ghost before = views(self.records@);
                    let mut i: usize = 1;
                    while i < rows.len()
                        invariant
                            1 <= i <= rows.len(),
                            self.mirror_count == old(self).mirror_count,
                            self.domain_index == old(self).domain_index,
                            self.page_number == old(self).page_number,
                            self.phase == old(self).phase,
                            before == old(self)@.records,
                            views(self.records@) == before + page_records(rows_view(rows@).subrange(1, i as int)),
                        decreases rows.len() - i,
                    {
                        let r = extract(&rows[i]);
                        let ghost prefix = rows_view(rows@).subrange(1, i as int);
                        let ghost next = rows_view(rows@).subrange(1, i as int + 1);
                        assert(next.drop_last() =~= prefix);
                        assert(next.last() == rows@[i as int]@);
                        match r {
                            Ok(rec) => {
                                let ghost old_recs = self.records@;
                                assert(extract_spec(next.last()) == Ok::<RecordView, crate::record::StructuralError>(rec@));
                                self.records.push(rec);
                                assert(views(self.records@) =~= views(old_recs).push(rec@));
                                assert(views(self.records@) =~= before + page_records(next));
                            },
                            Err(_) => {
                                assert(extract_spec(next.last()) is Err);
                                assert(views(self.records@) =~= before + page_records(next));
                            },
                        }
                        i = i + 1;
                    }
                    assert(rows_view(rows@).subrange(1, rows@.len() as int) =~= rows_view(rows@).drop_first());
                    self.page_number = self.page_number + 1;
                }
            },
        }
    }

    /// The current page was fetched with body `html`: its results table is
    /// read and the state moves by one step on it.
    pub fn on_page_html(&mut self, html: &str) -> (r: Result<(), SelectorError>)
        requires
            old(self).wf(),
            old(self)@.page_number < u64::MAX,
        ensures
            final(self).wf(),
            r is Ok <==> table_selectors_compile(),
            r is Err ==> final(self)@ == old(self)@,
            r is Ok ==> final(self)@ == step(old(self)@, table_event(results_table(html@))),
    {
        match read_results_table(html) {
            Err(e) => Err(e),
            Ok(table) => {
                self.on_page(table);
                Ok(())
            },
        }
    }
}

} // verus!
