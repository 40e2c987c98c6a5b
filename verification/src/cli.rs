//! What the command line and the configuration file hand to a run, and the
//! rows that a run hands to the report.

use vstd::prelude::*;

use crate::api_data::{AssetRecord, BasicAsset, NumericSensorDailySummaryDataPoint, Reading};
use crate::json::{
    insert_member, members_of, new_map, no_members, number_value, text_value, Json,
};

verus! {

/// The configuration of a run: the credentials of the client and the
/// addresses of the services.
#[derive(Debug, Default, Clone)]
pub struct AppConfig {
    pub client_id: String,
    pub client_secret: String,
    pub scope: String,
    pub auth_url: String,
    pub token_url: String,
    pub instance_url: String,
}

/// The arguments of the command line.
#[derive(Debug, PartialEq, Eq)]
pub struct SsrArgs {
    /// How much the run logs: `trace`, `debug`, `info`, `warn` or `error`.
    pub debug_level: String,
    /// The type of the assets to report on.
    pub asset_type: String,
    /// The name of the sensor to report.
    pub sensor: String,
    /// The name of a custom property to report with each asset.
    pub custom_property: Option<String>,
    /// The year of the month to report.
    pub year: i32,
    /// The month to report, from 1 to 12.
    pub month: u32,
    /// How many assets of the inventory to pass over.
    pub offset: u32,
    /// How many assets to report at most.
    pub limit: u32,
    /// The name of the file to write the report to.
    pub output_file: String,
}

/// The query of the inventory request: the type of the assets, how many
/// assets to pass over, how many to list at most, and the order of the
/// list. The list is ordered by identifier, so that the offset means the
/// same from one request to the next.
pub open spec fn inventory_query_of(asset_type: Seq<char>, offset: u32, limit: u32) -> Map<
    Seq<char>,
    Json,
> {
    no_members().insert("assetType"@, Json::Text(asset_type)).insert(
        "(after)"@,
        Json::Unsigned(offset as u64),
    ).insert("(limit)"@, Json::Unsigned(limit as u64)).insert("(sort)"@, Json::Text("+Id"@))
}

/// Builds the query of the inventory request.
pub fn inventory_query(asset_type: &String, offset: u32, limit: u32) -> (query: serde_json::Map<
    String,
    serde_json::Value,
>)
    ensures
        members_of(query) == inventory_query_of(asset_type@, offset, limit),
{
    let mut query = new_map();
    insert_member(&mut query, "assetType".to_owned(), text_value(asset_type.clone()));
    insert_member(&mut query, "(after)".to_owned(), number_value(offset));
    insert_member(&mut query, "(limit)".to_owned(), number_value(limit));
    insert_member(&mut query, "(sort)".to_owned(), text_value("+Id".to_owned()));
    query
}

/// How much a run logs.
#[derive(Debug, Clone, Copy, PartialEq, Eq, Structural)]
pub enum LevelFilter {
    Error,
    Warn,
    Info,
    Debug,
    Trace,
}

/// The path of the configuration file below a home directory.
pub open spec fn config_path_of(home: Seq<char>) -> Seq<char> {
    home + "/.hyperview/hyperview.toml"@
}

/// Builds the path of the configuration file below the home directory
/// `home_path`.
pub fn get_config_path(home_path: &str) -> (path: String)
    ensures
        path@ == config_path_of(home_path@),
{
    let mut path = home_path.to_owned();
    path.append("/.hyperview/hyperview.toml");
    path
}

/// The level that a name stands for. A name that is none of `error`,
/// `warn`, `debug` and `trace` stands for `Info`.
pub open spec fn debug_filter_of(debug_level: Seq<char>) -> LevelFilter {
    if debug_level == "error"@ {
        LevelFilter::Error
    } else if debug_level == "warn"@ {
        LevelFilter::Warn
    } else if debug_level == "debug"@ {
        LevelFilter::Debug
    } else if debug_level == "trace"@ {
        LevelFilter::Trace
    } else {
        LevelFilter::Info
    }
}

/// Chooses the level that `debug_level` names.
pub fn get_debug_filter(debug_level: &String) -> (filter: LevelFilter)
    ensures
        filter == debug_filter_of(debug_level@),
{
    if *debug_level == "error".to_owned() {
        LevelFilter::Error
    } else if *debug_level == "warn".to_owned() {
        LevelFilter::Warn
    } else if *debug_level == "debug".to_owned() {
        LevelFilter::Debug
    } else if *debug_level == "trace".to_owned() {
        LevelFilter::Trace
    } else {
        LevelFilter::Info
    }
}

/// One row of the report: a reading with the asset and the sensor that it
/// belongs to. The four measures are bit patterns, as in the reading.
#[derive(Debug, PartialEq, Eq)]
pub struct SensorReadingRow {
    pub asset_name: String,
    pub asset_id: String,
    pub custom_property: String,
    pub sensor_name: String,
    pub sensor_id: String,
    pub sensor_unit: String,
    pub timestamp: String,
    pub avg: u64,
    pub max: u64,
    pub min: u64,
    pub lst: u64,
}

/// Model of a [`SensorReadingRow`].
pub struct ReportRow {
    pub asset_name: Seq<char>,
    pub asset_id: Seq<char>,
    pub custom_property: Seq<char>,
    pub sensor_name: Seq<char>,
    pub sensor_id: Seq<char>,
    pub sensor_unit: Seq<char>,
    pub timestamp: Seq<char>,
    pub avg: u64,
    pub max: u64,
    pub min: u64,
    pub last: u64,
}

impl View for SensorReadingRow {
    type V = ReportRow;

    open spec fn view(&self) -> ReportRow {
        ReportRow {
            asset_name: self.asset_name@,
            asset_id: self.asset_id@,
            custom_property: self.custom_property@,
            sensor_name: self.sensor_name@,
            sensor_id: self.sensor_id@,
            sensor_unit: self.sensor_unit@,
            timestamp: self.timestamp@,
            avg: self.avg,
            max: self.max,
            min: self.min,
            last: self.lst,
        }
    }
}

impl DeepView for SensorReadingRow {
    type V = ReportRow;

    open spec fn deep_view(&self) -> ReportRow {
        self@
    }
}

/// What the report shows for a text that may be absent.
pub open spec fn or_not_available(text: Option<Seq<char>>) -> Seq<char> {
    match text {
        Some(text) => text,
        None => "N/A"@,
    }
}

/// The row for one reading of an asset with the sensor `sensor_name`,
/// `sensor_id`.
pub open spec fn row_of(
    asset: AssetRecord,
    sensor_name: Seq<char>,
    sensor_id: Seq<char>,
    reading: Reading,
) -> ReportRow {
    ReportRow {
        asset_name: asset.name,
        asset_id: asset.id,
        custom_property: or_not_available(asset.custom_property),
        sensor_name,
        sensor_id,
        sensor_unit: or_not_available(asset.sensor_unit),
        timestamp: reading.timestamp,
        avg: reading.avg,
        max: reading.max,
        min: reading.min,
        last: reading.last,
    }
}

/// The rows of one asset: one for each of its readings, in their order. An
/// asset without a sensor has no rows.
pub open spec fn asset_rows(asset: AssetRecord) -> Seq<ReportRow> {
    match (asset.sensor_name, asset.sensor_id) {
        (Some(sensor_name), Some(sensor_id)) => asset.data_points.map_values(
            |reading: Reading| row_of(asset, sensor_name, sensor_id, reading),
        ),
        _ => Seq::empty(),
    }
}

/// The rows of a report: the rows of each asset, in the order of the
/// assets.
pub open spec fn report_rows(assets: Seq<AssetRecord>) -> Seq<ReportRow>
    decreases assets.len(),
{
    if assets.len() == 0 {
        Seq::empty()
    } else {
        report_rows(assets.drop_last()) + asset_rows(assets.last())
    }
}

/// Copies a text that may be absent, with `N/A` in place of an absent one.
pub fn text_or_not_available(text: &Option<String>) -> (r: String)
    ensures
        r@ == or_not_available(text.deep_view()),
{
    match text {
        Some(text) => text.clone(),
        None => "N/A".to_owned(),
    }
}

/// Appends the rows of one asset to `rows`.
pub fn push_asset_rows(rows: &mut Vec<SensorReadingRow>, asset: &BasicAsset)
    ensures
        final(rows).deep_view() == old(rows).deep_view() + asset_rows(asset@),
{
    let ghost before = rows.deep_view();
    let (sensor_name, sensor_id) = match (&asset.sensor_name, &asset.sensor_id) {
        (Some(sensor_name), Some(sensor_id)) => (sensor_name, sensor_id),
        _ => return ,
    };
    let points = &asset.sensor_data_points;
    let mut i: usize = 0;
    while i < points.len()
        invariant
            i <= points.len(),
            points == &asset.sensor_data_points,
            asset.sensor_name == Some(*sensor_name),
            asset.sensor_id == Some(*sensor_id),
            rows.len() == before.len() + i,
            forall|j: int| 0 <= j < before.len() ==> (#[trigger] rows[j])@ == before[j],
            forall|j: int|
                before.len() <= j < before.len() + i ==> (#[trigger] rows[j])@ == row_of(
                    asset@,
                    sensor_name@,
                    sensor_id@,
                    points[j - before.len()]@,
                ),
        decreases points.len() - i,
    {
        let reading: &NumericSensorDailySummaryDataPoint = &points[i];
        rows.push(
            SensorReadingRow {
                asset_name: asset.name.clone(),
                asset_id: asset.id.clone(),
                custom_property: text_or_not_available(&asset.custom_property),
                sensor_name: sensor_name.clone(),
                sensor_id: sensor_id.clone(),
                sensor_unit: text_or_not_available(&asset.sensor_unit),
                timestamp: reading.r.clone(),
                avg: reading.avg,
                max: reading.max,
                min: reading.min,
                lst: reading.lst,
            },
        );
        i += 1;
    }
}

/// Lays out the report: one row for each reading of each asset, in the
/// order of the assets and of their readings.
pub fn write_output(asset_list: &Vec<BasicAsset>) -> (rows: Vec<SensorReadingRow>)
    ensures
        rows.deep_view() == report_rows(asset_list.deep_view()),
{
    let ghost assets = asset_list.deep_view();
    let mut rows: Vec<SensorReadingRow> = Vec::new();
    let mut i: usize = 0;
    while i < asset_list.len()
        invariant
            i <= asset_list.len(),
            assets == asset_list.deep_view(),
            rows.deep_view() == report_rows(assets.take(i as int)),
        decreases asset_list.len() - i,
    {
        assert(assets.take(i + 1).drop_last() =~= assets.take(i as int));
        push_asset_rows(&mut rows, &asset_list[i]);
        i += 1;
    }
    assert(assets.take(i as int) =~= assets);
    rows
}

} // verus!
