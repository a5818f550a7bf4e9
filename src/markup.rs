//! The markup query engine: what the library reads from a page, held as
//! plain values. Parsing and selector matching are done by `scraper`; each
//! query that the library makes is named by what it returns, which depends
//! on the markup and the selectors alone.

use vstd::prelude::*;

verus! {

/// The first link (`a` element) inside a cell.
#[derive(Clone, Debug, PartialEq, Eq)]
pub struct Link {
    /// The link's text: its descendant text nodes, concatenated.
    pub text: String,
    /// The link's `href` attribute, if it has one.
    pub href: Option<String>,
}

/// One child element of a table row.
#[derive(Clone, Debug, PartialEq, Eq)]
pub struct Cell {
    /// The cell's text: its descendant text nodes, concatenated.
    pub text: String,
    /// The first link inside the cell, if there is one.
    pub link: Option<Link>,
}

/// One table row: its child elements in document order.
#[derive(Clone, Debug, PartialEq, Eq)]
pub struct Row {
    pub cells: Vec<Cell>,
}

/// A link as character sequences.
pub struct LinkView {
    pub text: Seq<char>,
    pub href: Option<Seq<char>>,
}

/// A cell as character sequences.
pub struct CellView {
    pub text: Seq<char>,
    pub link: Option<LinkView>,
}

/// An optional string as an optional character sequence.
pub open spec fn opt_view(o: Option<String>) -> Option<Seq<char>> {
    match o {
        Some(s) => Some(s@),
        None => None,
    }
}

impl View for Link {
    type V = LinkView;

    open spec fn view(&self) -> LinkView {
        LinkView { text: self.text@, href: opt_view(self.href) }
    }
}

impl View for Cell {
    type V = CellView;

    open spec fn view(&self) -> CellView {
        CellView {
            text: self.text@,
            link: match self.link {
                Some(l) => Some(l@),
                None => None,
            },
        }
    }
}

impl View for Row {
    type V = Seq<CellView>;

    open spec fn view(&self) -> Seq<CellView> {
        self.cells@.map_values(|c: Cell| c@)
    }
}

/// The views of a sequence of rows.
pub open spec fn rows_view(rows: Seq<Row>) -> Seq<Seq<CellView>> {
    rows.map_values(|r: Row| r@)
}

/// An optional table as the views of its rows.
pub open spec fn table_view(t: Option<Vec<Row>>) -> Option<Seq<Seq<CellView>>> {
    match t {
        Some(rows) => Some(rows_view(rows@)),
        None => None,
    }
}

/// The link targets as optional character sequences.
pub open spec fn hrefs_view(hrefs: Seq<Option<String>>) -> Seq<Option<Seq<char>>> {
    hrefs.map_values(|h: Option<String>| opt_view(h))
}

/// Whether `selectors` parses as a CSS selector group.
pub uninterp spec fn selector_compiles(selectors: Seq<char>) -> bool;

/// In the document `html`: `None` where no element matches `table`; else,
/// for each descendant of the first match that matches `row`, in document
/// order, its child elements, each with its text and the text and
/// attribute `attr` of its first descendant that matches `link`.
pub uninterp spec fn results_table_of(
    html: Seq<char>,
    table: Seq<char>,
    row: Seq<char>,
    link: Seq<char>,
    attr: Seq<char>,
) -> Option<Seq<Seq<CellView>>>;

/// In the document `html`: `None` where no element matches `container`;
/// else the attribute `attr` of the first match and of each element below
/// it, in document order.
pub uninterp spec fn attrs_below_first_match_of(
    html: Seq<char>,
    container: Seq<char>,
    attr: Seq<char>,
) -> Option<Seq<Option<Seq<char>>>>;

/// Relies on `scraper::Selector::parse`: whether `selectors` parses as a CSS
/// selector group.
#[verifier::external_body]
fn selector_parses(selectors: &str) -> (r: bool)
    ensures
        r == selector_compiles(selectors@),
{
    scraper::Selector::parse(selectors).is_ok()
}

/// Relies on `scraper`: `Html::parse_document`, `Selector::parse`,
/// `Html::select` for the first table, `ElementRef::select` for its rows and
/// each cell's first link, `child_elements`, `text` and `attr`.
#[verifier::external_body]
fn first_table_rows(html: &str, table: &str, row: &str, link: &str, attr: &str) -> (r: Option<
    Vec<Row>,
>)
    requires
        selector_compiles(table@),
        selector_compiles(row@),
        selector_compiles(link@),
    ensures
        table_view(r) == results_table_of(html@, table@, row@, link@, attr@),
{
    let doc = scraper::Html::parse_document(html);
    let parse = |s: &str| scraper::Selector::parse(s).ok();
    let t = parse(table)?;
    let r = parse(row)?;
    let a = parse(link)?;
    Some(doc.select(&t).next()?.select(&r).map(|tr| Row { cells: tr.child_elements().map(|c| Cell {
        text: c.text().collect(),
        link: c.select(&a).next().map(|l| Link {
            text: l.text().collect(),
            href: l.attr(attr).map(String::from),
        }),
    }).collect() }).collect())
}

/// Relies on `scraper`: `Html::parse_document`, `Selector::parse`,
/// `Html::select` for the first match, `descendent_elements` (the element
/// itself first) and `attr`.
#[verifier::external_body]
fn first_match_attrs(html: &str, container: &str, attr: &str) -> (r: Option<Vec<Option<String>>>)
    requires
        selector_compiles(container@),
    ensures
        (match r {
            Some(v) => Some(hrefs_view(v@)),
            None => None,
        }) == attrs_below_first_match_of(html@, container@, attr@),
{
    let doc = scraper::Html::parse_document(html);
    let sel = scraper::Selector::parse(container).ok()?;
    let first = doc.select(&sel).next()?;
    Some(first.descendent_elements().map(|e| e.attr(attr).map(String::from)).collect())
}

/// A selector that the library uses did not compile.
#[derive(Clone, Copy, Debug, PartialEq, Eq, Structural)]
pub struct SelectorError;

/// The selector of the results table's body.
pub const RESULTS_TABLE_SELECTOR: &'static str = ".c > tbody";

/// The selector of table rows.
pub const ROW_SELECTOR: &'static str = "tr";

/// The selector of links.
pub const LINK_SELECTOR: &'static str = "a";

/// The attribute that holds a link's target.
pub const LINK_TARGET: &'static str = "href";

/// The selector of the landing page's download container.
pub const DOWNLOAD_CONTAINER_SELECTOR: &'static str = "#download";

/// Whether the selectors that read a results table all compile.
pub open spec fn table_selectors_compile() -> bool {
    &&& selector_compiles(RESULTS_TABLE_SELECTOR@)
    &&& selector_compiles(ROW_SELECTOR@)
    &&& selector_compiles(LINK_SELECTOR@)
}

/// The results table of the search page `html`, as views.
pub open spec fn results_table(html: Seq<char>) -> Option<Seq<Seq<CellView>>> {
    results_table_of(html, RESULTS_TABLE_SELECTOR@, ROW_SELECTOR@, LINK_SELECTOR@, LINK_TARGET@)
}

/// Reads the results table of a search page: `None` where the page has
/// none, else its rows in document order, header first.
pub fn read_results_table(html: &str) -> (r: Result<Option<Vec<Row>>, SelectorError>)
    ensures
        r is Ok <==> table_selectors_compile(),
        r matches Ok(t) ==> table_view(t) == results_table(html@),
{
    if !selector_parses(RESULTS_TABLE_SELECTOR) || !selector_parses(ROW_SELECTOR)
        || !selector_parses(LINK_SELECTOR) {
        return Err(SelectorError);
    }
    Ok(first_table_rows(html, RESULTS_TABLE_SELECTOR, ROW_SELECTOR, LINK_SELECTOR, LINK_TARGET))
}

/// Why no download address could be read from a landing page.
#[derive(Clone, Copy, Debug, PartialEq, Eq, Structural)]
pub enum ResolutionError {
    /// A selector that the library uses did not compile.
    Selector,
    /// The page has no download container.
    MissingContainer,
    /// The container has fewer than three elements.
    MissingLink,
    /// The container's third element has no `href`.
    MissingHref,
}

/// What the link targets of a landing page yield: `container` holds the
/// `href` of the download container's own element and of each element below
/// it, in document order, or is `None` where the page has no container.
pub open spec fn link_from_container_spec(container: Option<Seq<Option<Seq<char>>>>) -> Result<
    Seq<char>,
    ResolutionError,
> {
    match container {
        None => Err(ResolutionError::MissingContainer),
        Some(hrefs) => if hrefs.len() < 3 {
            Err(ResolutionError::MissingLink)
        } else {
            match hrefs[2] {
                None => Err(ResolutionError::MissingHref),
                Some(h) => Ok(h),
            }
        },
    }
}

/// A result of the resolver as its view.
pub open spec fn resolution_view(r: Result<String, ResolutionError>) -> Result<
    Seq<char>,
    ResolutionError,
> {
    match r {
        Ok(s) => Ok(s@),
        Err(e) => Err(e),
    }
}

/// Picks the download address from the link targets of a landing page's
/// download container: the third element's `href`, at a fixed position.
pub fn link_from_container(container: Option<Vec<Option<String>>>) -> (r: Result<
    String,
    ResolutionError,
>)
    ensures
        resolution_view(r) == link_from_container_spec(
            match container {
                Some(v) => Some(hrefs_view(v@)),
                None => None,
            },
        ),
{
    match container {
        None => Err(ResolutionError::MissingContainer),
        Some(hrefs) => {
            if hrefs.len() < 3 {
                Err(ResolutionError::MissingLink)
            } else {
                match &hrefs[2] {
                    None => Err(ResolutionError::MissingHref),
                    Some(h) => Ok(h.clone()),
                }
            }
        },
    }
}

/// The link targets of the download container of the landing page `html`.
pub open spec fn container_hrefs(html: Seq<char>) -> Option<Seq<Option<Seq<char>>>> {
    attrs_below_first_match_of(html, DOWNLOAD_CONTAINER_SELECTOR@, LINK_TARGET@)
}

/// Reads the direct download address from a landing page's markup: the
/// answer that `link_from_container` gives for the page's download
/// container, or a selector failure.
pub fn resolve_download_url(landing_html: &str) -> (r: Result<String, ResolutionError>)
    ensures
        (r == Err::<String, ResolutionError>(ResolutionError::Selector)) <==> !selector_compiles(
            DOWNLOAD_CONTAINER_SELECTOR@,
        ),
        selector_compiles(DOWNLOAD_CONTAINER_SELECTOR@) ==> resolution_view(r)
            == link_from_container_spec(container_hrefs(landing_html@)),
{
    if !selector_parses(DOWNLOAD_CONTAINER_SELECTOR) {
        return Err(ResolutionError::Selector);
    }
    link_from_container(first_match_attrs(landing_html, DOWNLOAD_CONTAINER_SELECTOR, LINK_TARGET))
}

} // verus!
