use libgen_rs::markup::{link_from_container, read_results_table, resolve_download_url, ResolutionError};
use libgen_rs::record::extract;
use libgen_rs::search::{mirror_domain, query_url, Phase, SearchState, MIRROR_COUNT};
use libgen_rs::text::to_decimal;

fn data_row(id: &str, title: &str) -> String {
    format!(
        "<tr><td>{id}</td><td><a href=\"a.php\"> Some <i>Author</i> </a></td>\
         <td><a href=\"b.php\">{title}<font> extra</font></a></td><td>Pub</td><td> 1999 </td>\
         <td><b>120</b></td><td>English</td><td>1 Mb</td><td>epub</td>\
         <td><a href=\"http://lp/{id}\">[1]</a></td></tr>"
    )
}

fn page(rows: &[String]) -> String {
    let header = "<tr><td>ID</td><td>Author</td><td>Title</td><td>Publisher</td><td>Year</td>\
                  <td>Pages</td><td>Language</td><td>Size</td><td>Extension</td><td>Mirrors</td></tr>";
    format!(
        "<html><body><table class=\"c\"><tbody>{}{}</tbody></table></body></html>",
        header,
        rows.concat()
    )
}

#[test]
fn results_table_is_read_row_by_row() {
    let html = page(&[data_row("7", "Harry")]);
    let rows = read_results_table(&html).unwrap().unwrap();
    assert_eq!(rows.len(), 2);
    assert_eq!(rows[1].cells.len(), 10);
    let r = extract(&rows[1]).unwrap();
    assert_eq!(r.identifier, "7");
    assert_eq!(r.author, "Some Author");
    assert_eq!(r.title, "Harry extra");
    assert_eq!(r.year, "1999");
    assert_eq!(r.page_count, "120");
    assert_eq!(r.file_format, "epub");
    assert_eq!(r.landing_page_reference, "http://lp/7");
}

#[test]
fn page_without_table_has_none() {
    let html = "<html><body><p>nothing</p></body></html>";
    assert_eq!(read_results_table(html).unwrap(), None);
}

#[test]
fn single_mirror_two_pages_gives_one_record() {
    let mut s = SearchState::new(1);
    assert_eq!(s.page_number(), 1);
    s.on_page_html(&page(&[data_row("1", "harry")])).unwrap();
    assert_eq!(s.phase(), Phase::Searching);
    assert_eq!(s.page_number(), 2);
    s.on_page_html(&page(&[])).unwrap();
    assert_eq!(s.phase(), Phase::Finished);
    let recs = s.into_records();
    assert_eq!(recs.len(), 1);
    assert_eq!(recs[0].title, "harry extra");
}

#[test]
fn records_keep_page_then_row_order() {
    let mut s = SearchState::new(2);
    s.on_page_html(&page(&[data_row("1", "a"), data_row("2", "b")])).unwrap();
    s.on_unavailable();
    assert_eq!(s.domain_index(), 1);
    s.on_page_html(&page(&[data_row("3", "c")])).unwrap();
    s.on_page_html(&page(&[])).unwrap();
    let ids: Vec<String> = s.into_records().into_iter().map(|r| r.identifier).collect();
    assert_eq!(ids, vec!["1", "2", "3"]);
}

#[test]
fn malformed_rows_are_skipped() {
    let bad = "<tr><td>only</td><td>two</td></tr>".to_string();
    let mut s = SearchState::new(1);
    s.on_page_html(&page(&[data_row("1", "a"), bad, data_row("2", "b")])).unwrap();
    assert_eq!(s.records().len(), 2);
    assert_eq!(s.page_number(), 2);
}

#[test]
fn page_without_table_ends_with_no_records() {
    let mut s = SearchState::new(1);
    s.on_page_html(&page(&[data_row("1", "a")])).unwrap();
    s.on_page_html("<html><body>no results</body></html>").unwrap();
    assert_eq!(s.phase(), Phase::Finished);
    assert!(s.into_records().is_empty());
}

#[test]
fn all_mirrors_down_fails_after_one_attempt_each() {
    let mut s = SearchState::new(MIRROR_COUNT);
    let mut attempts = Vec::new();
    while s.phase() == Phase::Searching {
        attempts.push((s.domain_index(), s.page_number()));
        s.on_unavailable();
    }
    assert_eq!(s.phase(), Phase::Failed);
    assert_eq!(attempts, vec![(0, 1), (1, 1), (2, 1)]);
}

#[test]
fn finished_search_ignores_further_answers() {
    let mut s = SearchState::new(1);
    s.on_page_html(&page(&[])).unwrap();
    s.on_unavailable();
    assert_eq!(s.phase(), Phase::Finished);
}

#[test]
fn query_url_is_exact() {
    assert_eq!(mirror_domain(0), "libgen.rs");
    assert_eq!(mirror_domain(2), "libgen.st");
    assert_eq!(
        query_url(mirror_domain(1), "harry", 12),
        "https://libgen.is/search.php?res=100&req=harry&page=12"
    );
}

#[test]
fn decimal_rendering() {
    assert_eq!(to_decimal(0), "0");
    assert_eq!(to_decimal(7), "7");
    assert_eq!(to_decimal(1234567890), "1234567890");
    assert_eq!(to_decimal(u64::MAX), "18446744073709551615");
}

#[test]
fn landing_page_without_container_is_an_error() {
    let html = "<html><body><div id=\"info\"><a href=\"http://x\">x</a></div></body></html>";
    assert_eq!(resolve_download_url(html), Err(ResolutionError::MissingContainer));
}

#[test]
fn landing_page_link_is_third_element() {
    let html = "<html><body><div id=\"download\"><h2><a href=\"http://dl/file\">GET</a></h2>\
                <a href=\"http://other\">other</a></div></body></html>";
    assert_eq!(resolve_download_url(html), Ok("http://dl/file".to_string()));
    let short = "<html><body><div id=\"download\"><h2>GET</h2></div></body></html>";
    assert_eq!(resolve_download_url(short), Err(ResolutionError::MissingLink));
    let nohref = "<html><body><div id=\"download\"><h2><a>GET</a></h2></div></body></html>";
    assert_eq!(resolve_download_url(nohref), Err(ResolutionError::MissingHref));
}

#[test]
fn link_from_container_picks_third() {
    assert_eq!(link_from_container(None), Err(ResolutionError::MissingContainer));
    assert_eq!(link_from_container(Some(vec![None, None])), Err(ResolutionError::MissingLink));
    assert_eq!(
        link_from_container(Some(vec![None, Some("a".to_string()), None])),
        Err(ResolutionError::MissingHref)
    );
    assert_eq!(
        link_from_container(Some(vec![None, None, Some("u".to_string()), Some("v".to_string())])),
        Ok("u".to_string())
    );
}
