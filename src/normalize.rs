use vstd::prelude::*;

use crate::csv::{csv_rows, parse_records};
use vstd::string::StringExecFns;

verus! {

/// Raised when a CSV payload cannot become an observation table.
#[derive(Debug, Clone, Copy, PartialEq, Eq)]
pub enum FormatError {
    /// The payload holds no header line.
    MissingHeader,
    /// A data row's field count differs from the header's.
    RaggedRow,
    /// Two columns carry the same name after renaming.
    DuplicateColumn,
}

/// One named column of an observation table.
#[derive(Debug, Clone)]
pub struct Column {
    pub name: String,
    pub values: Vec<String>,
}

/// A parsed CSV report: named columns in source order, all of one length.
#[derive(Debug, Clone)]
pub struct ObservationTable {
    pub columns: Vec<Column>,
}

/// A table as a sequence of (name, values) pairs.
pub type TableView = Seq<(Seq<char>, Seq<Seq<char>>)>;

impl View for Column {
    type V = (Seq<char>, Seq<Seq<char>>);

    open spec fn view(&self) -> (Seq<char>, Seq<Seq<char>>) {
        (self.name@, self.values.deep_view())
    }
}

impl View for ObservationTable {
    type V = TableView;

    open spec fn view(&self) -> TableView {
        self.columns@.map_values(|c: Column| c@)
    }
}

/// The canonical name of a source header; headers outside the mapping keep
/// their name.
pub open spec fn canonical_name(h: Seq<char>) -> Seq<char> {
    if h == "Date"@ {
        "date"@
    } else if h == "Station Name"@ {
        "station_name"@
    } else if h == "Station Id"@ {
        "station_id"@
    } else if h == "State Code"@ {
        "state_code"@
    } else if h == "Network Code"@ {
        "network_code"@
    } else if h == "Elevation (ft)"@ {
        "elevation_ft"@
    } else if h == "Latitude"@ {
        "latitude"@
    } else if h == "Longitude"@ {
        "longitude"@
    } else if h == "County Name"@ {
        "county_name"@
    } else if h == "Snow Water Equivalent (in) Start of Day Values"@ {
        "snow_water_equivalent_in"@
    } else if h == "Snow Water Equivalent % of Median (1991-2020)"@ {
        "snow_water_equivalent_median_percentage"@
    } else if h == "Snow Depth (in) Start of Day Values"@ {
        "snow_depth_in"@
    } else if h == "Air Temperature Maximum (degF)"@ {
        "max_temp_degF"@
    } else if h == "Air Temperature Minimum (degF)"@ {
        "min_temp_degF"@
    } else if h == "Air Temperature Observed (degF) Start of Day Values"@ {
        "observed_temp_degF"@
    } else if h == "Snow Density (pct) Start of Day Values"@ {
        "snow_density_percentage"@
    } else {
        h
    }
}

/// Whether `h` is one of the source headers that the mapping renames.
pub open spec fn is_mapped_header(h: Seq<char>) -> bool {
    canonical_name(h) != h
}

fn is_text(h: &String, lit: &str) -> (r: bool)
    ensures
        r == (h@ == lit@),
{
    let s = String::from_str(lit);
    *h == s
}

/// The canonical name of a source header.
pub fn canonical(h: &String) -> (r: String)
    ensures
        r@ == canonical_name(h@),
{
    let name = if is_text(h, "Date") {
        "date"
    } else if is_text(h, "Station Name") {
        "station_name"
    } else if is_text(h, "Station Id") {
        "station_id"
    } else if is_text(h, "State Code") {
        "state_code"
    } else if is_text(h, "Network Code") {
        "network_code"
    } else if is_text(h, "Elevation (ft)") {
        "elevation_ft"
    } else if is_text(h, "Latitude") {
        "latitude"
    } else if is_text(h, "Longitude") {
        "longitude"
    } else if is_text(h, "County Name") {
        "county_name"
    } else if is_text(h, "Snow Water Equivalent (in) Start of Day Values") {
        "snow_water_equivalent_in"
    } else if is_text(h, "Snow Water Equivalent % of Median (1991-2020)") {
        "snow_water_equivalent_median_percentage"
    } else if is_text(h, "Snow Depth (in) Start of Day Values") {
        "snow_depth_in"
    } else if is_text(h, "Air Temperature Maximum (degF)") {
        "max_temp_degF"
    } else if is_text(h, "Air Temperature Minimum (degF)") {
        "min_temp_degF"
    } else if is_text(h, "Air Temperature Observed (degF) Start of Day Values") {
        "observed_temp_degF"
    } else if is_text(h, "Snow Density (pct) Start of Day Values") {
        "snow_density_percentage"
    } else {
        return h.clone();
    };
    String::from_str(name)
}

/// The values of column `j`: field `j` of every row after the header.
pub open spec fn column_values(rows: Seq<Seq<Seq<char>>>, j: int) -> Seq<Seq<char>> {
    Seq::new((rows.len() - 1) as nat, |r: int| rows[r + 1][j])
}

/// Whether some data row has another field count than the header.
pub open spec fn is_ragged(rows: Seq<Seq<Seq<char>>>) -> bool {
    exists|r: int| 1 <= r < rows.len() && #[trigger] rows[r].len() != rows[0].len()
}

/// The table of a header row followed by data rows, before renaming.
pub open spec fn table_of_rows(rows: Seq<Seq<Seq<char>>>) -> Result<TableView, FormatError> {
    if rows.len() == 0 {
        Err(FormatError::MissingHeader)
    } else if is_ragged(rows) {
        Err(FormatError::RaggedRow)
    } else {
        Ok(Seq::new(rows[0].len(), |j: int| (rows[0][j], column_values(rows, j))))
    }
}

/// Whether no two columns share a name.
pub open spec fn names_distinct(t: TableView) -> bool {
    forall|i: int, j: int| 0 <= i < j < t.len() ==> (#[trigger] t[i]).0 != (#[trigger] t[j]).0
}

/// Every column under its canonical name, values untouched.
pub open spec fn renamed(t: TableView) -> TableView {
    t.map_values(|c: (Seq<char>, Seq<Seq<char>>)| (canonical_name(c.0), c.1))
}

/// Renaming, refused where two columns would end up with one name.
pub open spec fn rename_spec(t: TableView) -> Result<TableView, FormatError> {
    if names_distinct(renamed(t)) {
        Ok(renamed(t))
    } else {
        Err(FormatError::DuplicateColumn)
    }
}

/// The canonical observation table of a CSV payload.
pub open spec fn normalize_spec(text: Seq<char>) -> Result<TableView, FormatError> {
    match table_of_rows(csv_rows(text)) {
        Ok(t) => rename_spec(t),
        Err(e) => Err(e),
    }
}

/// Whether `r` is the executable form of the specified outcome `s`.
pub open spec fn table_matches(
    r: Result<ObservationTable, FormatError>,
    s: Result<TableView, FormatError>,
) -> bool {
    match r {
        Ok(t) => s == Ok::<TableView, FormatError>(t@),
        Err(e) => s == Err::<TableView, FormatError>(e),
    }
}

impl ObservationTable {
    /// Builds a table from a header row and data rows, column by column.
    /// Fails when there is no header row or when a data row has another
    /// field count than the header.
    pub fn from_rows(rows: &Vec<Vec<String>>) -> (r: Result<ObservationTable, FormatError>)
        ensures
            table_matches(r, table_of_rows(rows.deep_view())),
    {
        if rows.len() == 0 {
            return Err(FormatError::MissingHeader);
        }
        let width = rows[0].len();
        for r in 1..rows.len()
            invariant
                width == rows@[0].len(),
                forall|q: int| 1 <= q < r ==> (#[trigger] rows@[q]).len() == width,
        {
            if rows[r].len() != width {
                assert(rows.deep_view()[r as int].len() != rows.deep_view()[0].len());
                return Err(FormatError::RaggedRow);
            }
        }
        let ghost dv = rows.deep_view();
        assert(!is_ragged(dv)) by {
            assert forall|q: int| 1 <= q < dv.len() implies #[trigger] dv[q].len() == dv[0].len() by {
                assert(rows@[q].len() == width);
            }
        }
        let mut columns: Vec<Column> = Vec::new();
        for j in 0..width
            invariant
                dv == rows.deep_view(),
                width == dv[0].len(),
                rows.len() >= 1,
                forall|q: int| 0 <= q < rows.len() ==> (#[trigger] rows@[q]).len() == width,
                columns.len() == j,
                forall|k: int|
                    0 <= k < j ==> (#[trigger] columns@[k])@ == (dv[0][k], column_values(dv, k)),
        {
            let mut values: Vec<String> = Vec::new();
            for r in 1..rows.len()
                invariant
                    dv == rows.deep_view(),
                    j < width,
                    forall|q: int| 0 <= q < rows.len() ==> (#[trigger] rows@[q]).len() == width,
                    values.len() == r - 1,
                    forall|q: int| 0 <= q < r - 1 ==> (#[trigger] values@[q])@ == dv[q + 1][j as int],
            {
                values.push(rows[r][j].clone());
            }
            assert(values.deep_view() =~= column_values(dv, j as int));
            columns.push(Column { name: rows[0][j].clone(), values });
        }
        let t = ObservationTable { columns };
        assert(t@ =~= Seq::new(dv[0].len(), |j: int| (dv[0][j], column_values(dv, j))));
        Ok(t)
    }
}

/// Puts every column under its canonical name, keeping order and values.
/// Fails when two columns would end up with the same name.
pub fn rename_columns(table: ObservationTable) -> (r: Result<ObservationTable, FormatError>)
    ensures
        table_matches(r, rename_spec(table@)),
{
    let ghost t = table@;
    let mut cols = table.columns;
    let n = cols.len();
    let mut out: Vec<Column> = Vec::new();
    for j in 0..n
        invariant
            n == t.len(),
            cols.len() == n - j,
            out.len() == j,
            forall|k: int| 0 <= k < n - j ==> (#[trigger] cols@[k])@ == t[k + j],
            forall|k: int| 0 <= k < j ==> (#[trigger] out@[k])@ == renamed(t)[k],
    {
        let ghost before = cols@;
        let c = cols.remove(0);
        assert(c@ == t[j as int]);
        let name = canonical(&c.name);
        out.push(Column { name, values: c.values });
        assert(cols@.len() == n - j - 1);
        assert forall|k: int| 0 <= k < n - j - 1 implies (#[trigger] cols@[k])@ == t[k + j + 1] by {
            assert(cols@[k] == before[k + 1]);
        }
    }
    let ghost rt = renamed(t);
    assert(out@.map_values(|c: Column| c@) =~= rt);
    for i in 0..n
        invariant
            n == out.len(),
            rt == out@.map_values(|c: Column| c@),
            rt == renamed(t),
            t == table@,
            forall|a: int, b: int| 0 <= a < i && a < b < n ==> (#[trigger] rt[a]).0 != (#[trigger] rt[b]).0,
    {
        for k in i + 1..n
            invariant
                n == out.len(),
                i < n,
                rt == out@.map_values(|c: Column| c@),
                rt == renamed(t),
                t == table@,
            t == table@,
            rt == renamed(t),
            t == table@,
                forall|b: int| i < b < k ==> rt[i as int].0 != (#[trigger] rt[b]).0,
        {
            if out[i].name == out[k].name {
                assert(!names_distinct(rt)) by {
                    assert(rt[i as int] == out@[i as int]@);
                    assert(rt[k as int] == out@[k as int]@);
                    assert(rt[i as int].0 == rt[k as int].0);
                }
                return Err(FormatError::DuplicateColumn);
            }
        }
    }
    Ok(ObservationTable { columns: out })
}

/// Reads a CSV payload and renames its columns to the canonical schema.
/// Fails with `MissingHeader` when no header line is left after comments,
/// `RaggedRow` when a data row's field count differs from the header's, and
/// `DuplicateColumn` when two columns would share a name.
pub fn normalize(csv_text: &str) -> (r: Result<ObservationTable, FormatError>)
    ensures
        table_matches(r, normalize_spec(csv_text@)),
{
    let rows = parse_records(csv_text);
    match ObservationTable::from_rows(&rows) {
        Ok(t) => rename_columns(t),
        Err(e) => Err(e),
    }
}

/// Whether text starts with an ASCII capital letter.
pub open spec fn starts_upper(s: Seq<char>) -> bool {
    s.len() > 0 && 'A' <= s[0] && s[0] <= 'Z'
}

/// Whether text starts with an ASCII small letter.
pub open spec fn starts_lower(s: Seq<char>) -> bool {
    s.len() > 0 && 'a' <= s[0] && s[0] <= 'z'
}

/// Every renamed source header starts with a capital letter.
proof fn lemma_mapped_header_upper(h: Seq<char>)
    requires
        is_mapped_header(h),
    ensures
        starts_upper(h),
{
    reveal_strlit("Date");
    reveal_strlit("Station Name");
    reveal_strlit("Station Id");
    reveal_strlit("State Code");
    reveal_strlit("Network Code");
    reveal_strlit("Elevation (ft)");
    reveal_strlit("Latitude");
    reveal_strlit("Longitude");
    reveal_strlit("County Name");
    reveal_strlit("Snow Water Equivalent (in) Start of Day Values");
    reveal_strlit("Snow Water Equivalent % of Median (1991-2020)");
    reveal_strlit("Snow Depth (in) Start of Day Values");
    reveal_strlit("Air Temperature Maximum (degF)");
    reveal_strlit("Air Temperature Minimum (degF)");
    reveal_strlit("Air Temperature Observed (degF) Start of Day Values");
    reveal_strlit("Snow Density (pct) Start of Day Values");
}

/// Every canonical name given by the mapping starts with a small letter.
proof fn lemma_canonical_lower(h: Seq<char>)
    requires
        is_mapped_header(h),
    ensures
        starts_lower(canonical_name(h)),
{
    reveal_strlit("date");
    reveal_strlit("station_name");
    reveal_strlit("station_id");
    reveal_strlit("state_code");
    reveal_strlit("network_code");
    reveal_strlit("elevation_ft");
    reveal_strlit("latitude");
    reveal_strlit("longitude");
    reveal_strlit("county_name");
    reveal_strlit("snow_water_equivalent_in");
    reveal_strlit("snow_water_equivalent_median_percentage");
    reveal_strlit("snow_depth_in");
    reveal_strlit("max_temp_degF");
    reveal_strlit("min_temp_degF");
    reveal_strlit("observed_temp_degF");
    reveal_strlit("snow_density_percentage");
}

/// No header is renamed to a source header of the mapping.
pub proof fn lemma_canonical_not_source(x: Seq<char>, h: Seq<char>)
    requires
        is_mapped_header(h),
    ensures
        canonical_name(x) != h,
{
    lemma_mapped_header_upper(h);
    if is_mapped_header(x) {
        lemma_canonical_lower(x);
    }
}

/// Normalizing renames without moving data: column `j` of the result
/// carries the canonical name of header `j` and the values of field `j` of
/// every data row; a header outside the mapping keeps its name; and no
/// column is left under a source header of the mapping.
pub proof fn lemma_normalize_renames(text: Seq<char>)
    requires
        normalize_spec(text) is Ok,
    ensures
        ({
            let rows = csv_rows(text);
            let t = normalize_spec(text)->Ok_0;
            &&& rows.len() > 0
            &&& t.len() == rows[0].len()
            &&& forall|j: int|
                0 <= j < t.len() ==> (#[trigger] t[j]) == (
                    canonical_name(rows[0][j]),
                    column_values(rows, j),
                )
            &&& forall|j: int|
                0 <= j < t.len() && !is_mapped_header(rows[0][j]) ==> (#[trigger] t[j]).0
                    == rows[0][j]
            &&& forall|j: int, h: Seq<char>|
                0 <= j < t.len() && #[trigger] is_mapped_header(h) ==> (#[trigger] t[j]).0 != h
        }),
{
    let rows = csv_rows(text);
    let t = normalize_spec(text)->Ok_0;
    assert forall|j: int, h: Seq<char>|
        0 <= j < t.len() && #[trigger] is_mapped_header(h) implies (#[trigger] t[j]).0 != h by {
        lemma_canonical_not_source(rows[0][j], h);
    }
}

/// Normalizing is deterministic: two results that both meet the contract of
/// `normalize` on the same text are the same outcome, with equal tables.
pub proof fn lemma_normalize_deterministic(
    text: Seq<char>,
    r1: Result<ObservationTable, FormatError>,
    r2: Result<ObservationTable, FormatError>,
)
    requires
        table_matches(r1, normalize_spec(text)),
        table_matches(r2, normalize_spec(text)),
    ensures
        r1 is Ok <==> r2 is Ok,
        r1 is Ok ==> r1->Ok_0@ == r2->Ok_0@,
        r1 is Err ==> r1->Err_0 == r2->Err_0,
{
}

/// A payload with a header whose data rows do not all have the header's
/// field count is refused as ragged, never padded or truncated.
pub proof fn lemma_ragged_refused(text: Seq<char>, r: int)
    requires
        csv_rows(text).len() > 0,
        1 <= r < csv_rows(text).len(),
        csv_rows(text)[r].len() != csv_rows(text)[0].len(),
    ensures
        normalize_spec(text) == Err::<TableView, FormatError>(FormatError::RaggedRow),
{
    assert(is_ragged(csv_rows(text)));
}

} // verus!
