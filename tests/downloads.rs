use libgen_rs::download::{DownloadError, DownloadTask};
use libgen_rs::listing::stringify_search_results;
use libgen_rs::record::Record;
use libgen_rs::sanitize::{download_file_name, finish_sanitized, sanitize_filename};

fn task(total: Option<u64>) -> Result<DownloadTask, DownloadError> {
    DownloadTask::start("http://dl/file".to_string(), "out.pdf".to_string(), total)
}

#[test]
fn progress_is_cumulative_and_file_complete() {
    let mut t = task(Some(1000)).unwrap();
    let positions: Vec<u64> = [300usize, 300, 400].iter().map(|&n| t.on_chunk(n)).collect();
    assert_eq!(positions, vec![300, 600, 1000]);
    assert_eq!(t.bytes_written(), 1000);
    assert_eq!(t.finish(false), Ok(1000));
    assert_eq!(t.source_url(), "http://dl/file");
    assert_eq!(t.destination_path(), "out.pdf");
}

#[test]
fn unknown_length_is_refused() {
    assert_eq!(task(None).err(), Some(DownloadError::LengthUnknown));
}

#[test]
fn short_stream_is_a_mismatch() {
    let mut t = task(Some(1000)).unwrap();
    assert_eq!(t.on_chunk(999), 999);
    assert_eq!(t.finish(false), Err(DownloadError::SizeMismatch));
}

#[test]
fn long_stream_is_clamped_and_a_mismatch() {
    let mut t = task(Some(1000)).unwrap();
    assert_eq!(t.on_chunk(600), 600);
    assert_eq!(t.on_chunk(600), 1000);
    assert_eq!(t.expected_total_bytes(), 1000);
    assert_eq!(t.finish(false), Err(DownloadError::SizeMismatch));
}

#[test]
fn empty_download_completes_at_once() {
    let t = task(Some(0)).unwrap();
    assert_eq!(t.finish(false), Ok(0));
}

fn rec(author: &str, title: &str, year: &str, pages: &str, fmt: &str) -> Record {
    Record {
        identifier: "1".to_string(),
        author: author.to_string(),
        title: title.to_string(),
        publisher: String::new(),
        year: year.to_string(),
        page_count: pages.to_string(),
        language: "English".to_string(),
        file_size: "1 Mb".to_string(),
        file_format: fmt.to_string(),
        landing_page_reference: "http://lp".to_string(),
    }
}

#[test]
fn listing_lines() {
    let recs = vec![
        rec("Ann", "First", "2001", "300 [280]", "pdf"),
        rec("", "Second", "1999", "1", "epub"),
        rec("Bob", "Third", "", "0", "djvu"),
        rec("Cy", "Fourth", "2010", "", "mobi"),
        rec("Di", "Fifth", "2011", "12", "txt"),
        rec("Ed", "Sixth", "2012", "x [1][2]", "pdf"),
    ];
    let lines = stringify_search_results(&recs);
    assert_eq!(
        lines,
        vec![
            "1. \"First\" by Ann, 2001 (280 pages - pdf)",
            "2. \"Second\" by Unknown author, 1999 (1 page - epub)",
            "3. \"Third\" by Bob,  (djvu)",
            "4. \"Fourth\" by Cy, 2010 (mobi)",
            "5. \"Fifth\" by Di, 2011 (12 pages - txt)",
            "6. \"Sixth\" by Ed, 2012 (1 page - pdf)",
        ]
    );
    assert!(stringify_search_results(&[]).is_empty());
}

#[test]
fn sanitize_replaces_forbidden_characters() {
    assert_eq!(sanitize_filename("a<b>c:d\"e/f\\g|h?i*j\u{1}.txt"), Some("a_b_c_d_e_f_g_h_i_j_.txt".to_string()));
}

#[test]
fn sanitize_marks_reserved_names() {
    assert_eq!(sanitize_filename("CON.txt"), Some("CON.txt_".to_string()));
    assert_eq!(sanitize_filename("lpt3"), Some("lpt3_".to_string()));
    assert_eq!(sanitize_filename("console.txt"), Some("console.txt".to_string()));
}

#[test]
fn sanitize_trims_trailing_dots_and_spaces() {
    assert_eq!(sanitize_filename("name. . "), Some("name".to_string()));
    assert_eq!(finish_sanitized("a. ", false), "a");
    assert_eq!(finish_sanitized("nul", true), "nul_");
    assert_eq!(finish_sanitized("...", false), "");
}

#[test]
fn destination_name_joins_title_and_format() {
    assert_eq!(download_file_name("What? Now", "pdf"), Some("What_ Now.pdf".to_string()));
    assert_eq!(download_file_name("aux", "txt"), Some("aux.txt_".to_string()));
}

#[test]
fn cancelled_transfer_is_reported_as_such() {
    let mut t = task(Some(1000)).unwrap();
    assert_eq!(t.on_chunk(400), 400);
    assert_eq!(t.finish(true), Err(DownloadError::Cancelled));
    let mut t = task(Some(10)).unwrap();
    t.on_chunk(10);
    assert_eq!(t.finish(true), Err(DownloadError::Cancelled));
}
