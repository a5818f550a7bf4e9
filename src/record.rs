//! Records and the fixed-position extraction of a record from a table row.

use vstd::prelude::*;
use crate::markup::{CellView, LinkView, Row};
use crate::text::{trim, trimmed};

verus! {

/// The number of cells that a record is read from.
pub const RECORD_CELLS: usize = 10;

/// One catalog entry, read from one table row.
#[derive(Clone, Debug, PartialEq, Eq)]
pub struct Record {
    pub identifier: String,
    pub author: String,
    pub title: String,
    pub publisher: String,
    pub year: String,
    /// Raw page count; may embed a bracketed count of content pages.
    pub page_count: String,
    pub language: String,
    pub file_size: String,
    pub file_format: String,
    /// Where the landing page for the download is found.
    pub landing_page_reference: String,
}

/// A record as character sequences.
pub struct RecordView {
    pub identifier: Seq<char>,
    pub author: Seq<char>,
    pub title: Seq<char>,
    pub publisher: Seq<char>,
    pub year: Seq<char>,
    pub page_count: Seq<char>,
    pub language: Seq<char>,
    pub file_size: Seq<char>,
    pub file_format: Seq<char>,
    pub landing_page_reference: Seq<char>,
}

impl View for Record {
    type V = RecordView;

    open spec fn view(&self) -> RecordView {
        RecordView {
            identifier: self.identifier@,
            author: self.author@,
            title: self.title@,
            publisher: self.publisher@,
            year: self.year@,
            page_count: self.page_count@,
            language: self.language@,
            file_size: self.file_size@,
            file_format: self.file_format@,
            landing_page_reference: self.landing_page_reference@,
        }
    }
}

/// Which step of reading a cell found the markup not in the expected shape.
#[derive(Clone, Copy, Debug, PartialEq, Eq)]
pub enum Step {
    /// The row has no cell at this position.
    MissingCell,
    /// The cell holds no link.
    MissingLink,
    /// The cell's link has no `href` attribute.
    MissingHref,
}

/// The row's markup does not have the expected shape at `cell`.
#[derive(Clone, Copy, Debug, PartialEq, Eq)]
pub struct StructuralError {
    pub cell: usize,
    pub step: Step,
}

/// The cell at `i` of `row`.
pub open spec fn cell(row: Seq<CellView>, i: int) -> CellView {
    row[i]
}

/// The link of the cell at `i` of `row`, which must exist.
pub open spec fn link(row: Seq<CellView>, i: int) -> LinkView {
    row[i].link->0
}

/// The first structural problem of `row`, checked in cell order, if any.
pub open spec fn row_problem(row: Seq<CellView>) -> Option<StructuralError> {
    if row.len() < 10 {
        Some(StructuralError { cell: row.len() as usize, step: Step::MissingCell })
    } else if cell(row, 1).link is None {
        Some(StructuralError { cell: 1, step: Step::MissingLink })
    } else if cell(row, 2).link is None {
        Some(StructuralError { cell: 2, step: Step::MissingLink })
    } else if cell(row, 9).link is None {
        Some(StructuralError { cell: 9, step: Step::MissingLink })
    } else if link(row, 9).href is None {
        Some(StructuralError { cell: 9, step: Step::MissingHref })
    } else {
        None
    }
}

/// The record read from a row without structural problems: the author from
/// the text of the link in cell 1, the title from the text of the link in
/// cell 2, the landing page from the link target of cell 9, and
/// everything else from the cells' own text, all trimmed.
pub open spec fn row_record(row: Seq<CellView>) -> RecordView {
    RecordView {
        identifier: trimmed(cell(row, 0).text),
        author: trimmed(link(row, 1).text),
        title: trimmed(link(row, 2).text),
        publisher: trimmed(cell(row, 3).text),
        year: trimmed(cell(row, 4).text),
        page_count: trimmed(cell(row, 5).text),
        language: trimmed(cell(row, 6).text),
        file_size: trimmed(cell(row, 7).text),
        file_format: trimmed(cell(row, 8).text),
        landing_page_reference: trimmed(link(row, 9).href->0),
    }
}

/// What reading `row` yields: its first structural problem, or its record.
pub open spec fn extract_spec(row: Seq<CellView>) -> Result<RecordView, StructuralError> {
    match row_problem(row) {
        Some(e) => Err(e),
        None => Ok(row_record(row)),
    }
}

/// A result of `extract` as its view.
pub open spec fn extracted_view(r: Result<Record, StructuralError>) -> Result<RecordView, StructuralError> {
    match r {
        Ok(rec) => Ok(rec@),
        Err(e) => Err(e),
    }
}

/// Reads one record from a table row by fixed cell positions.
pub fn extract(row: &Row) -> (r: Result<Record, StructuralError>)
    ensures
        extracted_view(r) == extract_spec(row@),
        row@.len() < RECORD_CELLS ==> r is Err,
        row_problem(row@) is None ==> r is Ok && r->Ok_0@ == row_record(row@),
{
    let n = row.cells.len();
    if n < RECORD_CELLS {
        return Err(StructuralError { cell: n, step: Step::MissingCell });
    }
    let author = match &row.cells[1].link {
        Some(l) => trim(l.text.as_str()),
        None => return Err(StructuralError { cell: 1, step: Step::MissingLink }),
    };
    let title = match &row.cells[2].link {
        Some(l) => trim(l.text.as_str()),
        None => return Err(StructuralError { cell: 2, step: Step::MissingLink }),
    };
    let landing_page_reference = match &row.cells[9].link {
        Some(l) => match &l.href {
            Some(h) => trim(h.as_str()),
            None => return Err(StructuralError { cell: 9, step: Step::MissingHref }),
        },
        None => return Err(StructuralError { cell: 9, step: Step::MissingLink }),
    };
    let rec = Record {
        identifier: trim(row.cells[0].text.as_str()),
        author,
        title,
        publisher: trim(row.cells[3].text.as_str()),
        year: trim(row.cells[4].text.as_str()),
        page_count: trim(row.cells[5].text.as_str()),
        language: trim(row.cells[6].text.as_str()),
        file_size: trim(row.cells[7].text.as_str()),
        file_format: trim(row.cells[8].text.as_str()),
        landing_page_reference,
    };
    Ok(rec)
}

} // verus!
