use vstd::prelude::*;

use crate::station::{derive_id, station_id_of, StationRecord};
use vstd::string::StringExecFns;

verus! {

/// The station directory page: every SNOTEL station, listed by state.
pub const DIRECTORY_URL: &'static str = "https://wcc.sc.egov.usda.gov/nwcc/yearcount?network=sntl&state=&counttype=statelist";

/// The report endpoint, up to the station triplet.
pub const REPORT_URL_PREFIX: &'static str = "https://wcc.sc.egov.usda.gov/reportGenerator/view_csv/customSingleStationReport/daily/start_of_period/";

/// The rest of the report URL after the triplet's network: the daily,
/// start-of-period CSV with its fixed set of sixteen columns.
pub const REPORT_URL_SUFFIX: &'static str = ":SNTL%7Cid=\"\"|name/-1,0/name,stationId,state.code,network.code,elevation,latitude,longitude,county.name,WTEQ::value,WTEQ::pctOfMedian_1991,SNWD::value,TMAX::value,TMIN::value,TOBS::value,SNDN::value?fitToScreen=false";

/// The record processed when no other is chosen (zero-based).
pub const DEFAULT_STATION_INDEX: usize = 4;

/// The report URL for a station id and a state code, substituted verbatim.
pub open spec fn report_url_of(station_id: Seq<char>, state_code: Seq<char>) -> Seq<char> {
    REPORT_URL_PREFIX@ + station_id + seq![':'] + state_code + REPORT_URL_SUFFIX@
}

/// Builds the report URL `<prefix>{station_id}:{state_code}:SNTL<suffix>`.
/// The values are not checked: empty or malformed ones are substituted as
/// they are.
pub fn build_url(station_id: &str, state_code: &str) -> (r: String)
    ensures
        r@ == report_url_of(station_id@, state_code@),
{
    let mut r = String::from_str(REPORT_URL_PREFIX);
    r.append(station_id);
    r.append(":");
    r.append(state_code);
    r.append(REPORT_URL_SUFFIX);
    proof {
        reveal_strlit(":");
    }
    r
}

/// The report URL of a record, or `None` when its site name holds no digit
/// and so names no station.
pub fn report_url(record: &StationRecord) -> (r: Option<String>)
    ensures
        station_id_of(record@).len() == 0 <==> r is None,
        r matches Some(u) ==> u@ == report_url_of(station_id_of(record@), record.state@),
{
    let id = derive_id(record);
    if id.as_str().is_empty() {
        None
    } else {
        Some(build_url(id.as_str(), record.state.as_str()))
    }
}

/// Settings of one run of the pipeline.
#[derive(Debug, Clone, Copy, PartialEq, Eq)]
pub struct PipelineConfig {
    /// Zero-based index of the directory record to process.
    pub station_index: usize,
}

impl Default for PipelineConfig {
    fn default() -> (r: PipelineConfig)
        ensures
            r.station_index == DEFAULT_STATION_INDEX,
    {
        PipelineConfig { station_index: DEFAULT_STATION_INDEX }
    }
}

} // verus!
