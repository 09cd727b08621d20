use vstd::prelude::*;

use crate::station::{record_of, StationRecord, RECORD_FIELDS};

verus! {

/// The cell texts of every `<table>` of an HTML fragment, in document order:
/// for each table, each `<tr>` inside it, and for each row the text of each
/// `<td>` inside it.
pub uninterp spec fn html_table_cells(html: Seq<char>) -> Seq<Seq<Seq<Seq<char>>>>;

/// Relies on scraper's `Html::parse_fragment`, `Selector` and
/// `ElementRef::select` / `text`: parses the fragment and collects, per
/// table, per row, the concatenated text of each cell.
#[verifier::external_body]
fn table_cells(html: &str) -> (r: Vec<Vec<Vec<String>>>)
    ensures
        r.deep_view() == html_table_cells(html@),
{
    let doc = scraper::Html::parse_fragment(html);
    let table = scraper::Selector::parse("table").unwrap();
    let row = scraper::Selector::parse("tr").unwrap();
    let cell = scraper::Selector::parse("td").unwrap();
    doc.select(&table).map(|t| {
        t.select(&row).map(|r| r.select(&cell).map(|c| c.text().collect()).collect()).collect()
    }).collect()
}

/// Raised when the HTML holds no data table: fewer than two tables.
#[derive(Debug, Clone, Copy, PartialEq, Eq)]
pub enum ParseError {
    MissingDataTable,
}

/// The records as sequences of field texts.
pub open spec fn records_view(v: Seq<StationRecord>) -> Seq<Seq<Seq<char>>> {
    v.map_values(|r: StationRecord| r@)
}

/// The records read from a document's tables: one per row of the second
/// table, in document order; fails when there is no second table.
pub open spec fn extract_spec(tables: Seq<Seq<Seq<Seq<char>>>>) -> Result<
    Seq<Seq<Seq<char>>>,
    ParseError,
> {
    if tables.len() < 2 {
        Err(ParseError::MissingDataTable)
    } else {
        Ok(tables[1].map_values(|row: Seq<Seq<char>>| record_of(row)))
    }
}

/// Whether `r` is the executable form of the specified outcome `s`.
pub open spec fn extract_matches(
    r: Result<Vec<StationRecord>, ParseError>,
    s: Result<Seq<Seq<Seq<char>>>, ParseError>,
) -> bool {
    match r {
        Ok(v) => s == Ok::<Seq<Seq<Seq<char>>>, ParseError>(records_view(v@)),
        Err(e) => s == Err::<Seq<Seq<Seq<char>>>, ParseError>(e),
    }
}

/// Reads station records from the cell texts of a document's tables: the
/// second table is the data table, and each of its rows yields one record.
pub fn records_from_tables(tables: &Vec<Vec<Vec<String>>>) -> (r: Result<
    Vec<StationRecord>,
    ParseError,
>)
    ensures
        extract_matches(r, extract_spec(tables.deep_view())),
{
    if tables.len() < 2 {
        return Err(ParseError::MissingDataTable);
    }
    let rows = &tables[1];
    let mut out: Vec<StationRecord> = Vec::new();
    for i in 0..rows.len()
        invariant
            rows.deep_view() == tables.deep_view()[1],
            out.len() == i,
            forall|j: int| 0 <= j < i ==> (#[trigger] out@[j])@ == record_of(rows.deep_view()[j]),
    {
        out.push(StationRecord::from_cells(&rows[i]));
    }
    assert(records_view(out@) == tables.deep_view()[1].map_values(
        |row: Seq<Seq<char>>| record_of(row),
    ));
    Ok(out)
}

/// Extracts the station records of an HTML directory page: one record per
/// `<tr>` of the second `<table>`, fields bound by cell position.
pub fn extract(html: &str) -> (r: Result<Vec<StationRecord>, ParseError>)
    ensures
        extract_matches(r, extract_spec(html_table_cells(html@))),
{
    let tables = table_cells(html);
    records_from_tables(&tables)
}

/// For HTML with exactly two tables, extraction succeeds with one record per
/// row of the second table, in document order.
pub proof fn lemma_extract_two_tables(html: Seq<char>)
    requires
        html_table_cells(html).len() == 2,
    ensures
        extract_spec(html_table_cells(html)) is Ok,
        extract_spec(html_table_cells(html))->Ok_0.len() == html_table_cells(html)[1].len(),
        forall|i: int|
            0 <= i < html_table_cells(html)[1].len() ==> extract_spec(
                html_table_cells(html),
            )->Ok_0[i] == record_of(#[trigger] html_table_cells(html)[1][i]),
{
}

/// A row with fewer than ten cells leaves the remaining fields empty; cells
/// past the tenth are dropped.
pub proof fn lemma_record_of_row(cells: Seq<Seq<char>>)
    ensures
        record_of(cells).len() == RECORD_FIELDS,
        forall|k: int| 0 <= k < RECORD_FIELDS && k < cells.len() ==> #[trigger] record_of(cells)[k] == cells[k],
        forall|k: int| cells.len() <= k < RECORD_FIELDS ==> #[trigger] record_of(cells)[k] == Seq::<char>::empty(),
        cells.len() > RECORD_FIELDS ==> record_of(cells) == cells.take(RECORD_FIELDS as int),
{
    if cells.len() > RECORD_FIELDS {
        assert(record_of(cells) == cells.take(RECORD_FIELDS as int));
    }
}

} // verus!
