use vstd::prelude::*;

use crate::text::{digits_of, filter_digits, is_decimal_digit};

verus! {

/// Number of positional fields of a station record.
pub const RECORD_FIELDS: usize = 10;

/// One row of the station directory table. Fields are bound by the position
/// of the row's `<td>` cells, in this order.
#[derive(Debug, Clone)]
pub struct StationRecord {
    pub ntwk: String,
    pub state: String,
    pub site_name: String,
    pub ts: String,
    pub start: String,
    pub lat: String,
    pub lon: String,
    pub elev: String,
    pub county: String,
    pub huc: String,
}

impl View for StationRecord {
    type V = Seq<Seq<char>>;

    /// The ten fields, in positional order.
    open spec fn view(&self) -> Seq<Seq<char>> {
        seq![
            self.ntwk@, self.state@, self.site_name@, self.ts@, self.start@,
            self.lat@, self.lon@, self.elev@, self.county@, self.huc@,
        ]
    }
}

/// The text of cell `k`, or empty text where the row has no such cell.
pub open spec fn cell_or_empty(cells: Seq<Seq<char>>, k: int) -> Seq<char> {
    if 0 <= k < cells.len() {
        cells[k]
    } else {
        Seq::empty()
    }
}

/// The record a row with these cell texts yields: cell `k` fills field `k`
/// for `k` below ten; further cells are ignored.
pub open spec fn record_of(cells: Seq<Seq<char>>) -> Seq<Seq<char>> {
    Seq::new(RECORD_FIELDS as nat, |k: int| cell_or_empty(cells, k))
}

/// The station identifier of a record: the digits of its site name.
pub open spec fn station_id_of(rec: Seq<Seq<char>>) -> Seq<char> {
    digits_of(rec[2])
}

fn cell_text(cells: &Vec<String>, k: usize) -> (r: String)
    ensures
        r@ == cell_or_empty(cells.deep_view(), k as int),
{
    if k < cells.len() {
        cells[k].clone()
    } else {
        String::new()
    }
}

impl StationRecord {
    /// Builds a record from the texts of a row's cells, in document order.
    pub fn from_cells(cells: &Vec<String>) -> (r: StationRecord)
        ensures
            r@ == record_of(cells.deep_view()),
    {
        let r = StationRecord {
            ntwk: cell_text(cells, 0),
            state: cell_text(cells, 1),
            site_name: cell_text(cells, 2),
            ts: cell_text(cells, 3),
            start: cell_text(cells, 4),
            lat: cell_text(cells, 5),
            lon: cell_text(cells, 6),
            elev: cell_text(cells, 7),
            county: cell_text(cells, 8),
            huc: cell_text(cells, 9),
        };
        assert(r@ == record_of(cells.deep_view()));
        r
    }
}

/// Raised when a station index lies outside the record sequence.
#[derive(Debug, Clone, Copy, PartialEq, Eq)]
pub struct IndexError {
    pub index: usize,
    pub len: usize,
}

/// The record at `index`, or an `IndexError` when `index` is not below the
/// number of records.
pub fn select(records: &Vec<StationRecord>, index: usize) -> (r: Result<&StationRecord, IndexError>)
    ensures
        index < records.len() <==> r is Ok,
        r matches Ok(rec) ==> *rec == records[index as int],
        r matches Err(e) ==> e.index == index && e.len == records.len(),
{
    if index < records.len() {
        Ok(&records[index])
    } else {
        Err(IndexError { index, len: records.len() })
    }
}

/// The station identifier of `record`: the decimal digits of its site name,
/// in order. Empty when the site name holds no digit.
pub fn derive_id(record: &StationRecord) -> (r: String)
    ensures
        r@ == station_id_of(record@),
{
    filter_digits(record.site_name.as_str())
}

/// Keeping the digits of text that holds only digits changes nothing.
pub proof fn lemma_digits_of_digits(s: Seq<char>)
    requires
        forall|i: int| 0 <= i < s.len() ==> is_decimal_digit(#[trigger] s[i]),
    ensures
        digits_of(s) == s,
    decreases s.len(),
{
    if s.len() > 0 {
        lemma_digits_of_digits(s.drop_last());
        assert(digits_of(s.drop_last()).push(s.last()) == s);
    }
}

/// Every character kept is a digit.
pub proof fn lemma_digits_only(s: Seq<char>)
    ensures
        forall|i: int| 0 <= i < digits_of(s).len() ==> is_decimal_digit(#[trigger] digits_of(s)[i]),
    decreases s.len(),
{
    if s.len() > 0 {
        lemma_digits_only(s.drop_last());
        let d = digits_of(s.drop_last());
        assert forall|i: int| 0 <= i < digits_of(s).len() implies is_decimal_digit(
            #[trigger] digits_of(s)[i],
        ) by {
            if i < d.len() {
                assert(digits_of(s)[i] == d[i]);
            }
        }
    }
}

/// Text with no digit yields an empty identifier.
pub proof fn lemma_no_digits(s: Seq<char>)
    requires
        forall|i: int| 0 <= i < s.len() ==> !is_decimal_digit(#[trigger] s[i]),
    ensures
        digits_of(s) == Seq::<char>::empty(),
    decreases s.len(),
{
    if s.len() > 0 {
        lemma_no_digits(s.drop_last());
    }
}

/// Deriving the identifier is idempotent: filtering the digits of an
/// identifier returns it unchanged.
pub proof fn lemma_derive_id_idempotent(s: Seq<char>)
    ensures
        digits_of(digits_of(s)) == digits_of(s),
{
    lemma_digits_only(s);
    lemma_digits_of_digits(digits_of(s));
}

} // verus!
