use ask_bc_rust::csv::parse_records;
use ask_bc_rust::normalize::{canonical, normalize, rename_columns, FormatError, ObservationTable};

const MAPPING: [(&str, &str); 16] = [
    ("Date", "date"),
    ("Station Name", "station_name"),
    ("Station Id", "station_id"),
    ("State Code", "state_code"),
    ("Network Code", "network_code"),
    ("Elevation (ft)", "elevation_ft"),
    ("Latitude", "latitude"),
    ("Longitude", "longitude"),
    ("County Name", "county_name"),
    ("Snow Water Equivalent (in) Start of Day Values", "snow_water_equivalent_in"),
    ("Snow Water Equivalent % of Median (1991-2020)", "snow_water_equivalent_median_percentage"),
    ("Snow Depth (in) Start of Day Values", "snow_depth_in"),
    ("Air Temperature Maximum (degF)", "max_temp_degF"),
    ("Air Temperature Minimum (degF)", "min_temp_degF"),
    ("Air Temperature Observed (degF) Start of Day Values", "observed_temp_degF"),
    ("Snow Density (pct) Start of Day Values", "snow_density_percentage"),
];

fn names(t: &ObservationTable) -> Vec<String> {
    t.columns.iter().map(|c| c.name.clone()).collect()
}

fn pairs(t: &ObservationTable) -> Vec<(String, Vec<String>)> {
    t.columns.iter().map(|c| (c.name.clone(), c.values.clone())).collect()
}

fn full_header() -> String {
    MAPPING.iter().map(|(s, _)| *s).collect::<Vec<_>>().join(",")
}

#[test]
fn end_to_end_comment_and_two_columns() {
    let t = normalize("# comment\nDate,Station Id\n2023-01-01,302\n").unwrap();
    assert_eq!(names(&t), vec!["date", "station_id"]);
    assert_eq!(t.columns[0].values, vec!["2023-01-01"]);
    assert_eq!(t.columns[1].values, vec!["302"]);
}

#[test]
fn every_mapped_header_is_renamed() {
    let header = full_header();
    let row: Vec<String> = (0..16).map(|i| format!("v{}", i)).collect();
    let text = format!("{}\n{}\n", header, row.join(","));
    let t = normalize(&text).unwrap();
    assert_eq!(t.columns.len(), 16);
    for (i, (src, dst)) in MAPPING.iter().enumerate() {
        assert_eq!(t.columns[i].name, *dst);
        assert!(!names(&t).contains(&src.to_string()));
        assert_eq!(t.columns[i].values, vec![format!("v{}", i)]);
    }
}

#[test]
fn unmapped_headers_pass_through() {
    let t = normalize("Date,Flow (cfs),Notes\n2024-02-01,12,ok\n2024-02-02,13,\n").unwrap();
    assert_eq!(names(&t), vec!["date", "Flow (cfs)", "Notes"]);
    assert_eq!(t.columns[1].values, vec!["12", "13"]);
    assert_eq!(t.columns[2].values, vec!["ok", ""]);
}

#[test]
fn normalize_twice_gives_same_table() {
    let text = "# a\n# b\nStation Name,Latitude,Other\nX,40.1,1\nY,41.2,2\n";
    let a = normalize(text).unwrap();
    let b = normalize(text).unwrap();
    assert_eq!(pairs(&a), pairs(&b));
}

#[test]
fn ragged_row_is_a_format_error() {
    let header = full_header();
    let good: Vec<String> = (0..16).map(|i| i.to_string()).collect();
    let short: Vec<String> = (0..15).map(|i| i.to_string()).collect();
    let text = format!("{}\n{}\n{}\n", header, good.join(","), short.join(","));
    assert_eq!(normalize(&text).unwrap_err(), FormatError::RaggedRow);
}

#[test]
fn long_row_is_a_format_error() {
    assert_eq!(normalize("a,b\n1,2,3\n").unwrap_err(), FormatError::RaggedRow);
}

#[test]
fn missing_header_is_a_format_error() {
    assert_eq!(normalize("").unwrap_err(), FormatError::MissingHeader);
    assert_eq!(normalize("# only\n# comments\n").unwrap_err(), FormatError::MissingHeader);
    assert_eq!(normalize("\n\n").unwrap_err(), FormatError::MissingHeader);
}

#[test]
fn header_only_gives_empty_columns() {
    let t = normalize("Date,Station Id").unwrap();
    assert_eq!(names(&t), vec!["date", "station_id"]);
    assert!(t.columns[0].values.is_empty());
}

#[test]
fn rename_collision_is_a_format_error() {
    assert_eq!(normalize("Date,date\n1,2\n").unwrap_err(), FormatError::DuplicateColumn);
    assert_eq!(normalize("x,x\n1,2\n").unwrap_err(), FormatError::DuplicateColumn);
}

#[test]
fn quoted_fields_and_crlf() {
    let rows = parse_records("a,\"b,c\",\"say \"\"hi\"\"\"\r\n\"line\nbreak\",2,3\r\n");
    assert_eq!(rows.len(), 2);
    assert_eq!(rows[0], vec!["a", "b,c", "say \"hi\""]);
    assert_eq!(rows[1], vec!["line\nbreak", "2", "3"]);
}

#[test]
fn comment_marker_only_at_line_start() {
    let rows = parse_records("#skip\nx,#y\n\n1,2");
    assert_eq!(rows, vec![vec!["x", "#y"], vec!["1", "2"]]);
}

#[test]
fn empty_fields_are_kept() {
    let rows = parse_records(",\n,,x\n");
    assert_eq!(rows, vec![vec!["", ""], vec!["", "", "x"]]);
}

#[test]
fn canonical_names() {
    assert_eq!(canonical(&"Snow Depth (in) Start of Day Values".to_string()), "snow_depth_in");
    assert_eq!(canonical(&"date".to_string()), "date");
    assert_eq!(canonical(&"Something".to_string()), "Something");
}

#[test]
fn rename_columns_keeps_values() {
    let t = normalize("A,B\n1,2\n").unwrap();
    let renamed = rename_columns(t.clone()).unwrap();
    assert_eq!(pairs(&renamed), pairs(&t));
    let u = ObservationTable::from_rows(&vec![
        vec!["Longitude".to_string(), "County Name".to_string()],
        vec!["-105.9".to_string(), "Grand".to_string()],
    ])
    .unwrap();
    assert_eq!(names(&u), vec!["Longitude", "County Name"]);
    let r = rename_columns(u).unwrap();
    assert_eq!(names(&r), vec!["longitude", "county_name"]);
    assert_eq!(r.columns[1].values, vec!["Grand"]);
}
