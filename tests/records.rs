use libgen_rs::markup::{Cell, Link, Row};
use libgen_rs::record::{extract, Step, StructuralError};

fn plain(s: &str) -> Cell {
    Cell { text: s.to_string(), link: None }
}

fn linked(all: &str, href: Option<&str>) -> Cell {
    Cell {
        text: all.to_string(),
        link: Some(Link {
            text: all.to_string(),
            href: href.map(|h| h.to_string()),
        }),
    }
}

fn full_row() -> Row {
    Row {
        cells: vec![
            plain(" 42 "),
            linked(" J. Author ", Some("author.php")),
            linked("\n A Title \t", Some("book/1")),
            plain("Publisher"),
            plain(" 2001\n"),
            plain("300 [280]"),
            plain("English"),
            plain("2 Mb"),
            plain(" pdf "),
            linked("[1]", Some("  http://mirror/get/abc  ")),
        ],
    }
}

#[test]
fn extract_reads_all_ten_fields_trimmed() {
    let r = extract(&full_row()).unwrap();
    assert_eq!(r.identifier, "42");
    assert_eq!(r.author, "J. Author");
    assert_eq!(r.title, "A Title");
    assert_eq!(r.publisher, "Publisher");
    assert_eq!(r.year, "2001");
    assert_eq!(r.page_count, "300 [280]");
    assert_eq!(r.language, "English");
    assert_eq!(r.file_size, "2 Mb");
    assert_eq!(r.file_format, "pdf");
    assert_eq!(r.landing_page_reference, "http://mirror/get/abc");
}

#[test]
fn extract_ignores_cells_past_the_tenth() {
    let mut row = full_row();
    row.cells.push(plain("extra"));
    let r = extract(&row).unwrap();
    assert_eq!(r.landing_page_reference, "http://mirror/get/abc");
}

#[test]
fn extract_rejects_short_rows() {
    for n in 0..10 {
        let mut row = full_row();
        row.cells.truncate(n);
        assert_eq!(extract(&row), Err(StructuralError { cell: n, step: Step::MissingCell }));
    }
}

#[test]
fn extract_rejects_missing_author_link() {
    let mut row = full_row();
    row.cells[1] = plain("J. Author");
    assert_eq!(extract(&row), Err(StructuralError { cell: 1, step: Step::MissingLink }));
}

#[test]
fn extract_rejects_missing_title_link() {
    let mut row = full_row();
    row.cells[2] = plain("A Title");
    assert_eq!(extract(&row), Err(StructuralError { cell: 2, step: Step::MissingLink }));
    let mut row = full_row();
    row.cells[2] = linked("  ", Some("book/1"));
    assert_eq!(extract(&row).unwrap().title, "");
}

#[test]
fn extract_rejects_missing_landing_link_and_href() {
    let mut row = full_row();
    row.cells[9] = plain("[1]");
    assert_eq!(extract(&row), Err(StructuralError { cell: 9, step: Step::MissingLink }));
    let mut row = full_row();
    row.cells[9] = linked("[1]", None);
    assert_eq!(extract(&row), Err(StructuralError { cell: 9, step: Step::MissingHref }));
}

#[test]
fn extract_allows_an_empty_author_link() {
    let mut row = full_row();
    row.cells[1] = linked("  ", Some("author.php"));
    assert_eq!(extract(&row).unwrap().author, "");
}
