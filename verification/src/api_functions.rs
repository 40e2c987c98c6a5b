//! What a run does with the responses of the asset API: reading the
//! inventory, resolving a custom property and a sensor for each asset,
//! laying out the summary requests, and joining the summaries onto the
//! assets.

use vstd::prelude::*;

use crate::api_data::{
    asset_stub, AssetRecord, BasicAsset, CustomProperty, NumericSensorDailySummaryDataPoint,
    NumericSensorResponse, SensorSummary,
};
use crate::calendar::{is_calendar_month, month_exists, month_start_text, MonthStart};
use crate::json::{bool_member, items, json_of, jsons_of, member, text_member, u64_member, Json};
use crate::ssr_errors::SsrError;
use crate::text::{fold, folded};

verus! {

/// The number of inventory entries that a response describes: the smaller of
/// the limit and the total that the server reports.
pub open spec fn spec_effective_count(total: u64, limit: u64) -> u64 {
    if limit < total {
        limit
    } else {
        total
    }
}

/// The number of inventory entries to read from a response.
#[verifier::when_used_as_spec(spec_effective_count)]
pub fn effective_count(total: u64, limit: u64) -> (count: u64)
    ensures
        count == spec_effective_count(total, limit),
        count <= total,
        count <= limit,
        count == total || count == limit,
{
    if limit < total {
        limit
    } else {
        total
    }
}

/// The total and the limit that an inventory response reports, in this
/// order. A response without metadata reports zero for both; metadata that
/// lacks one of the two numbers is malformed.
pub open spec fn metadata_of(resp: Json) -> Result<(u64, u64), SsrError> {
    match resp.member("_metadata"@) {
        None => Ok((0, 0)),
        Some(metadata) => match (
            metadata.u64_member("total"@),
            metadata.u64_member("limit"@),
        ) {
            (Some(total), Some(limit)) => Ok((total, limit)),
            _ => Err(SsrError::MalformedResponse),
        },
    }
}

/// The asset that an entry of the inventory describes, if the entry holds an
/// identifier and a name as text.
pub open spec fn stub_of(entry: Json) -> Option<AssetRecord> {
    match (entry.text_member("id"@), entry.text_member("name"@)) {
        (Some(id), Some(name)) => Some(asset_stub(id, name)),
        _ => None,
    }
}

/// The assets that the first `count` entries describe, in the order of the
/// entries; `None` where there are fewer entries or one of them describes no
/// asset.
pub open spec fn stubs_of(entries: Seq<Json>, count: nat) -> Option<Seq<AssetRecord>> {
    if count <= entries.len() && forall|i: int| 0 <= i < count ==> stub_of(#[trigger] entries[i]) is Some {
        Some(Seq::new(count, |i: int| stub_of(entries[i])->0))
    } else {
        None
    }
}

/// The asset list that an inventory response describes.
///
/// The list holds as many assets as the effective count says, taken from the
/// front of the data array. A response without a data array describes no
/// assets. A data array that is no array, is shorter than the effective
/// count, or holds an entry without identifier or name is malformed.
pub open spec fn asset_list_of(resp: Json) -> Result<Seq<AssetRecord>, SsrError> {
    match metadata_of(resp) {
        Err(e) => Err(e),
        Ok((total, limit)) => {
            let count = spec_effective_count(total, limit);
            match resp.member("data"@) {
                None => Ok(Seq::empty()),
                Some(data) => if count == 0 {
                    Ok(Seq::empty())
                } else {
                    match data.items() {
                        None => Err(SsrError::MalformedResponse),
                        Some(entries) => match stubs_of(entries, count as nat) {
                            None => Err(SsrError::MalformedResponse),
                            Some(stubs) => Ok(stubs),
                        },
                    }
                },
            }
        },
    }
}

/// Reads the total and the limit of an inventory response.
pub fn read_metadata(resp: &serde_json::Value) -> (r: Result<(u64, u64), SsrError>)
    ensures
        r == metadata_of(json_of(*resp)),
{
    match member(resp, "_metadata") {
        None => Ok((0, 0)),
        Some(metadata) => {
            let total = u64_member(metadata, "total");
            let limit = u64_member(metadata, "limit");
            match (total, limit) {
                (Some(total), Some(limit)) => Ok((total, limit)),
                _ => Err(SsrError::MalformedResponse),
            }
        },
    }
}

/// Reads the asset that an entry of the inventory describes.
pub fn read_stub(entry: &serde_json::Value) -> (r: Option<BasicAsset>)
    ensures
        r.deep_view() == stub_of(json_of(*entry)),
{
    let id = text_member(entry, "id");
    let name = text_member(entry, "name");
    match (id, name) {
        (Some(id), Some(name)) => Some(BasicAsset::new(id, name)),
        _ => None,
    }
}

/// Reads the asset list out of an inventory response.
pub fn get_asset_list(resp: &serde_json::Value) -> (r: Result<Vec<BasicAsset>, SsrError>)
    ensures
        match r {
            Ok(list) => asset_list_of(json_of(*resp)) == Ok::<Seq<AssetRecord>, SsrError>(list.deep_view()),
            Err(e) => asset_list_of(json_of(*resp)) == Err::<Seq<AssetRecord>, SsrError>(e),
        },
{
    let (total, limit) = match read_metadata(resp) {
        Ok(pair) => pair,
        Err(e) => return Err(e),
    };
    let end: u64 = effective_count(total, limit);
    let mut basic_assets: Vec<BasicAsset> = Vec::new();
    let data = match member(resp, "data") {
        Some(data) => data,
        None => {
            assert(basic_assets.deep_view() =~= Seq::empty());
            return Ok(basic_assets);
        },
    };
    if end == 0 {
        assert(basic_assets.deep_view() =~= Seq::empty());
        return Ok(basic_assets);
    }
    let entries = match items(data) {
        Some(entries) => entries,
        None => return Err(SsrError::MalformedResponse),
    };
    if (entries.len() as u64) < end {
        return Err(SsrError::MalformedResponse);
    }
    let mut i: usize = 0;
    while (i as u64) < end
        invariant
            i <= end <= entries.len(),
            end > 0,
            metadata_of(json_of(*resp)) == Ok::<(u64, u64), SsrError>((total, limit)),
            end == spec_effective_count(total, limit),
            json_of(*resp).member("data"@) == Some(json_of(*data)),
            json_of(*data).items() == Some(jsons_of(entries@)),
            basic_assets.len() == i,
            forall|j: int|
                0 <= j < i ==> stub_of(#[trigger] jsons_of(entries@)[j]) == Some(basic_assets[j]@),
        decreases end - i,
    {
        assert(jsons_of(entries@)[i as int] == json_of(entries@[i as int]));
        match read_stub(&entries[i]) {
            Some(asset) => basic_assets.push(asset),
            None => return Err(SsrError::MalformedResponse),
        }
        i += 1;
    }
    assert(basic_assets.deep_view() =~= stubs_of(jsons_of(entries@), end as nat)->0);
    Ok(basic_assets)
}

/// Whether a stored property name and a requested one name the same
/// property: they do when their folded forms are equal.
pub open spec fn property_matches(stored: Seq<char>, wanted: Seq<char>) -> bool {
    folded(stored) == folded(wanted)
}

/// The value of the last pair of the list whose name is `wanted`; `None`
/// where no pair has that name. A pair is a name and a value, and names
/// are compared as they are.
pub open spec fn last_value_where(pairs: Seq<(Seq<char>, Seq<char>)>, wanted: Seq<char>) -> Option<
    Seq<char>,
>
    decreases pairs.len(),
{
    if pairs.len() == 0 {
        None
    } else if pairs.last().0 == wanted {
        Some(pairs.last().1)
    } else {
        last_value_where(pairs.drop_last(), wanted)
    }
}

/// The properties of a list as pairs of folded name and value, in the order
/// of the list.
pub open spec fn folded_pairs(props: Seq<CustomProperty>) -> Seq<(Seq<char>, Seq<char>)> {
    props.map_values(|p: CustomProperty| (folded(p.name@), p.value@))
}

/// The value of the last property of the list whose name matches `wanted`;
/// `None` where no name matches.
pub open spec fn property_value(props: Seq<CustomProperty>, wanted: Seq<char>) -> Option<
    Seq<char>,
> {
    last_value_where(folded_pairs(props), folded(wanted))
}

/// An asset after its property list was read: it has the value of the
/// matching property, and keeps what it had where none matches.
pub open spec fn with_property(
    asset: AssetRecord,
    props: Seq<CustomProperty>,
    wanted: Seq<char>,
) -> AssetRecord {
    AssetRecord {
        custom_property: match property_value(props, wanted) {
            Some(value) => Some(value),
            None => asset.custom_property,
        },
        ..asset
    }
}

/// Decides whether a stored property name matches a requested one.
pub fn is_property_match(stored: &str, wanted: &str) -> (r: bool)
    ensures
        r == property_matches(stored@, wanted@),
{
    let a = fold(stored);
    let b = fold(wanted);
    a == b
}

/// Finds the value of the last pair whose name is `wanted`. The names of
/// the pairs, and `wanted`, are taken as they are: where names are to match
/// in their folded form, the caller hands over folded names.
pub fn last_value_of(pairs: &Vec<(String, String)>, wanted: &str) -> (r: Option<String>)
    ensures
        r.deep_view() == last_value_where(pairs.deep_view(), wanted@),
{
    let ghost all = pairs.deep_view();
    let wanted_name: String = wanted.to_owned();
    let mut found: Option<String> = None;
    let mut i: usize = 0;
    while i < pairs.len()
        invariant
            i <= pairs.len(),
            all == pairs.deep_view(),
            wanted_name@ == wanted@,
            found.deep_view() == last_value_where(all.take(i as int), wanted@),
        decreases pairs.len() - i,
    {
        assert(all.take(i + 1).drop_last() =~= all.take(i as int));
        assert(all.take(i + 1).last() == pairs[i as int].deep_view());
        if pairs[i].0 == wanted_name {
            found = Some(pairs[i].1.clone());
        }
        i += 1;
    }
    assert(all.take(i as int) =~= all);
    found
}

/// Folds the names of a property list: the pairs of folded name and value,
/// in the order of the list.
pub fn fold_properties(resp: &Vec<CustomProperty>) -> (pairs: Vec<(String, String)>)
    ensures
        pairs.deep_view() == folded_pairs(resp@),
{
    let mut pairs: Vec<(String, String)> = Vec::new();
    let mut i: usize = 0;
    while i < resp.len()
        invariant
            i <= resp.len(),
            pairs.len() == i,
            forall|j: int|
                0 <= j < i ==> (#[trigger] pairs[j]).deep_view() == (
                    folded(resp[j].name@),
                    resp[j].value@,
                ),
        decreases resp.len() - i,
    {
        pairs.push((fold(resp[i].name.as_str()), resp[i].value.clone()));
        i += 1;
    }
    assert(pairs.deep_view() =~= folded_pairs(resp@));
    pairs
}

/// Finds the value of the property that `custom_property` names.
pub fn find_property(resp: &Vec<CustomProperty>, custom_property: &str) -> (r: Option<String>)
    ensures
        r.deep_view() == property_value(resp@, custom_property@),
{
    let pairs = fold_properties(resp);
    let wanted = fold(custom_property);
    last_value_of(&pairs, wanted.as_str())
}

/// Gives an asset the value of the custom property that was asked for, out
/// of the property list of that asset.
pub fn get_asset_custom_properties(
    asset: &mut BasicAsset,
    resp: &Vec<CustomProperty>,
    custom_property: &str,
)
    ensures
        final(asset)@ == with_property(old(asset)@, resp@, custom_property@),
{
    match find_property(resp, custom_property) {
        Some(value) => {
            asset.custom_property = Some(value);
        },
        None => {},
    }
}

/// A sensor as the sensor list of an asset describes it.
#[derive(Debug, PartialEq, Eq)]
pub struct SensorEntry {
    pub is_numeric: bool,
    pub name: String,
    pub id: String,
    pub unit: String,
}

/// Model of a [`SensorEntry`].
pub struct Sensor {
    pub is_numeric: bool,
    pub name: Seq<char>,
    pub id: Seq<char>,
    pub unit: Seq<char>,
}

impl View for SensorEntry {
    type V = Sensor;

    open spec fn view(&self) -> Sensor {
        Sensor { is_numeric: self.is_numeric, name: self.name@, id: self.id@, unit: self.unit@ }
    }
}

impl DeepView for SensorEntry {
    type V = Sensor;

    open spec fn deep_view(&self) -> Sensor {
        self@
    }
}

/// The sensor that an entry of a sensor list describes, if the entry says
/// whether the sensor is numeric and holds a name and an identifier as
/// text. The unit is `N/A` where the entry gives none.
pub open spec fn sensor_of(entry: Json) -> Option<Sensor> {
    match (
        entry.bool_member("isNumeric"@),
        entry.text_member("name"@),
        entry.text_member("id"@),
    ) {
        (Some(is_numeric), Some(name), Some(id)) => Some(
            Sensor {
                is_numeric,
                name,
                id,
                unit: match entry.text_member("unitString"@) {
                    Some(unit) => unit,
                    None => "N/A"@,
                },
            },
        ),
        _ => None,
    }
}

/// Whether an entry of a sensor list describes a sensor of the name
/// `wanted`. Names are compared as they are.
pub open spec fn names_sensor(entry: Json, wanted: Seq<char>) -> bool {
    sensor_of(entry) matches Some(sensor) && sensor.name == wanted
}

/// What reading a sensor list from front to back finds for the name
/// `wanted`: the last sensor of that name, or none. The reading fails at
/// the first entry that describes no sensor, and at the first sensor of
/// that name that is not numeric.
pub open spec fn sensor_scan(entries: Seq<Json>, wanted: Seq<char>) -> Result<
    Option<Sensor>,
    SsrError,
>
    decreases entries.len(),
{
    if entries.len() == 0 {
        Ok(None)
    } else {
        match sensor_scan(entries.drop_last(), wanted) {
            Err(e) => Err(e),
            Ok(found) => match sensor_of(entries.last()) {
                None => Err(SsrError::MalformedResponse),
                Some(sensor) => if sensor.name != wanted {
                    Ok(found)
                } else if sensor.is_numeric {
                    Ok(Some(sensor))
                } else {
                    Err(SsrError::NonNumericSensorUsed)
                },
            },
        }
    }
}

/// An asset with the given sensor.
pub open spec fn with_sensor(asset: AssetRecord, sensor: Sensor) -> AssetRecord {
    AssetRecord {
        sensor_name: Some(sensor.name),
        sensor_id: Some(sensor.id),
        sensor_unit: Some(sensor.unit),
        ..asset
    }
}

/// An asset after its sensor list was read.
pub open spec fn with_sensors(
    asset: AssetRecord,
    entries: Seq<Json>,
    wanted: Seq<char>,
) -> Result<AssetRecord, SsrError> {
    match sensor_scan(entries, wanted) {
        Err(e) => Err(e),
        Ok(None) => Ok(asset),
        Ok(Some(sensor)) => Ok(with_sensor(asset, sensor)),
    }
}

/// Reads the sensor that an entry of a sensor list describes.
pub fn read_sensor(entry: &serde_json::Value) -> (r: Option<SensorEntry>)
    ensures
        r.deep_view() == sensor_of(json_of(*entry)),
{
    let is_numeric = bool_member(entry, "isNumeric");
    let name = text_member(entry, "name");
    let id = text_member(entry, "id");
    let unit = match text_member(entry, "unitString") {
        Some(unit) => unit,
        None => "N/A".to_owned(),
    };
    match (is_numeric, name, id) {
        (Some(is_numeric), Some(name), Some(id)) => Some(SensorEntry { is_numeric, name, id, unit }),
        _ => None,
    }
}

/// Finds the sensor that `sensor_name` names in a sensor list.
pub fn find_sensor(resp: &Vec<serde_json::Value>, sensor_name: &str) -> (r: Result<
    Option<SensorEntry>,
    SsrError,
>)
    ensures
        match r {
            Ok(found) => sensor_scan(jsons_of(resp@), sensor_name@) == Ok::<Option<Sensor>, SsrError>(
                found.deep_view(),
            ),
            Err(e) => sensor_scan(jsons_of(resp@), sensor_name@) == Err::<Option<Sensor>, SsrError>(e),
        },
{
    let wanted: String = sensor_name.to_owned();
    let ghost entries = jsons_of(resp@);
    let mut found: Option<SensorEntry> = None;
    let mut i: usize = 0;
    while i < resp.len()
        invariant
            i <= resp.len(),
            wanted@ == sensor_name@,
            entries == jsons_of(resp@),
            sensor_scan(entries.take(i as int), sensor_name@) == Ok::<Option<Sensor>, SsrError>(
                found.deep_view(),
            ),
        decreases resp.len() - i,
    {
        assert(entries.take(i + 1).drop_last() =~= entries.take(i as int));
        let sensor = match read_sensor(&resp[i]) {
            Some(sensor) => sensor,
            None => {
                proof {
                    lemma_sensor_scan_fails(entries, sensor_name@, i + 1);
                }
                return Err(SsrError::MalformedResponse);
            },
        };
        if sensor.name == wanted {
            if !sensor.is_numeric {
                proof {
                    lemma_sensor_scan_fails(entries, sensor_name@, i + 1);
                }
                return Err(SsrError::NonNumericSensorUsed);
            }
            found = Some(sensor);
        }
        i += 1;
    }
    assert(entries.take(i as int) =~= entries);
    Ok(found)
}

/// Once the reading of a sensor list has failed, what follows in the list
/// does not matter.
pub proof fn lemma_sensor_scan_fails(entries: Seq<Json>, wanted: Seq<char>, n: int)
    requires
        0 <= n <= entries.len(),
        sensor_scan(entries.take(n), wanted) is Err,
    ensures
        sensor_scan(entries, wanted) == sensor_scan(entries.take(n), wanted),
    decreases entries.len(),
{
    if n == entries.len() {
        assert(entries.take(n) =~= entries);
    } else {
        assert(entries.drop_last().take(n) =~= entries.take(n));
        lemma_sensor_scan_fails(entries.drop_last(), wanted, n);
    }
}

/// Gives an asset the sensor that `sensor_name` names, out of the sensor
/// list of that asset. On failure the asset is left as it was.
pub fn get_asset_sensors(
    asset: &mut BasicAsset,
    resp: &Vec<serde_json::Value>,
    sensor_name: &str,
) -> (r: Result<(), SsrError>)
    ensures
        match r {
            Ok(()) => with_sensors(old(asset)@, jsons_of(resp@), sensor_name@) == Ok::<
                AssetRecord,
                SsrError,
            >(final(asset)@),
            Err(e) => with_sensors(old(asset)@, jsons_of(resp@), sensor_name@) == Err::<
                AssetRecord,
                SsrError,
            >(e) && final(asset)@ == old(asset)@,
        },
{
    match find_sensor(resp, sensor_name) {
        Err(e) => Err(e),
        Ok(None) => Ok(()),
        Ok(Some(sensor)) => {
            asset.sensor_name = Some(sensor.name);
            asset.sensor_id = Some(sensor.id);
            asset.sensor_unit = Some(sensor.unit);
            Ok(())
        },
    }
}

/// The first day of the month after the given one; December is followed by
/// January of the next year. There is none where the given month, or the
/// one after it, is not a month of the calendar.
pub open spec fn next_month_start(year: i32, month: u32) -> Result<MonthStart, SsrError> {
    if !is_calendar_month(year as int, month as int) {
        Err(SsrError::YearMonthConversion)
    } else if month == 12 {
        if is_calendar_month(year + 1, 1) {
            Ok(MonthStart { year: (year + 1) as i32, month: 1 })
        } else {
            Err(SsrError::YearMonthConversion)
        }
    } else {
        Ok(MonthStart { year, month: (month + 1) as u32 })
    }
}

/// Computes the first day of the month after the given one.
pub fn get_next_date(year: i32, month: u32) -> (r: Result<MonthStart, SsrError>)
    ensures
        r == next_month_start(year, month),
{
    if !month_exists(year, month) {
        return Err(SsrError::YearMonthConversion);
    }
    let e_year: i32 = if month == 12 {
        year + 1
    } else {
        year
    };
    let e_month: u32 = if month == 12 {
        1
    } else {
        month + 1
    };
    if month_exists(e_year, e_month) {
        Ok(MonthStart { year: e_year, month: e_month })
    } else {
        Err(SsrError::YearMonthConversion)
    }
}

/// The two ends of the month window as the summary endpoint takes them:
/// midnight of the month's first day, and midnight of the first day of the
/// month after it. The window is half-open.
pub open spec fn window_of(year: i32, month: u32) -> Result<(Seq<char>, Seq<char>), SsrError> {
    match next_month_start(year, month) {
        Err(e) => Err(e),
        Ok(next) => Ok(
            (
                month_start_text(year as int, month as int) + "T00:00:00.000"@,
                month_start_text(next.year as int, next.month as int) + "T00:00:00.000"@,
            ),
        ),
    }
}

/// The start and the end of a month window, as text.
#[derive(Debug, PartialEq, Eq)]
pub struct MonthWindow {
    pub start_time: String,
    pub end_time: String,
}

/// Computes the window of the given month.
pub fn month_window(year: i32, month: u32) -> (r: Result<MonthWindow, SsrError>)
    ensures
        match r {
            Ok(w) => window_of(year, month) == Ok::<(Seq<char>, Seq<char>), SsrError>(
                (w.start_time@, w.end_time@),
            ),
            Err(e) => window_of(year, month) == Err::<(Seq<char>, Seq<char>), SsrError>(e),
        },
{
    let next = match get_next_date(year, month) {
        Ok(next) => next,
        Err(e) => return Err(e),
    };
    match (MonthStart { year, month }.text(), next.text()) {
        (Some(start), Some(end)) => {
            let mut start_time = start;
            start_time.append("T00:00:00.000");
            let mut end_time = end;
            end_time.append("T00:00:00.000");
            Ok(MonthWindow { start_time, end_time })
        },
        _ => Err(SsrError::YearMonthConversion),
    }
}

/// The number of assets whose sensors one summary request asks for, at
/// most.
pub const CHUNK: usize = 100;

/// The number of summary requests for `len` assets: one for each chunk of
/// the partition of the assets into chunks of `CHUNK`, the last of which
/// may be smaller. No chunk is empty, so no assets make no request.
pub open spec fn chunk_count(len: int) -> int {
    (len + CHUNK - 1) / (CHUNK as int)
}

/// Where chunk `k` of `len` assets starts.
pub open spec fn chunk_start(k: int, len: int) -> int {
    if k * CHUNK <= len {
        k * CHUNK
    } else {
        len
    }
}

/// Where chunk `k` of `len` assets ends.
pub open spec fn chunk_end(k: int, len: int) -> int {
    if k * CHUNK + CHUNK <= len {
        k * CHUNK + CHUNK
    } else {
        len
    }
}

/// The assets of chunk `k`, in their order.
pub open spec fn chunk_of(assets: Seq<AssetRecord>, k: int) -> Seq<AssetRecord> {
    assets.subrange(chunk_start(k, assets.len() as int), chunk_end(k, assets.len() as int))
}

/// The query parameter that names the sensor of an asset, if the asset has
/// one.
pub open spec fn sensor_id_param(asset: AssetRecord) -> Option<(Seq<char>, Seq<char>)> {
    match asset.sensor_id {
        Some(id) => Some(("sensorIds"@, id)),
        None => None,
    }
}

/// The query of the summary request for one chunk: a `sensorIds` parameter
/// for each asset of the chunk that has a sensor, in the order of the
/// assets, then the start and the end of the window.
pub open spec fn chunk_query(chunk: Seq<AssetRecord>, window: (Seq<char>, Seq<char>)) -> Seq<
    (Seq<char>, Seq<char>),
> {
    chunk.filter_map(|a: AssetRecord| sensor_id_param(a)) + seq![
        ("startTime"@, window.0),
        ("endTime"@, window.1),
    ]
}

/// The queries of all summary requests of a run, in the order in which they
/// are sent.
pub open spec fn summary_queries(assets: Seq<AssetRecord>, year: i32, month: u32) -> Result<
    Seq<Seq<(Seq<char>, Seq<char>)>>,
    SsrError,
> {
    match window_of(year, month) {
        Err(e) => Err(e),
        Ok(window) => Ok(
            Seq::new(
                chunk_count(assets.len() as int) as nat,
                |k: int| chunk_query(chunk_of(assets, k), window),
            ),
        ),
    }
}

/// Computes the number of summary requests for `len` assets.
pub fn count_chunks(len: usize) -> (count: usize)
    ensures
        count == chunk_count(len as int),
        count == 0 <==> len == 0,
{
    if len % CHUNK == 0 {
        len / CHUNK
    } else {
        len / CHUNK + 1
    }
}

/// The query of the summary request for chunk `k`; `None` where the assets
/// have no chunk `k`, so that no request is made for no assets.
pub open spec fn summary_query_of(
    assets: Seq<AssetRecord>,
    k: int,
    window: (Seq<char>, Seq<char>),
) -> Option<Seq<(Seq<char>, Seq<char>)>> {
    if 0 <= k < chunk_count(assets.len() as int) {
        Some(chunk_query(chunk_of(assets, k), window))
    } else {
        None
    }
}

/// Builds the query of the summary request for chunk `k`, if there is such
/// a chunk.
pub fn summary_query(asset_list: &Vec<BasicAsset>, k: usize, window: &MonthWindow) -> (r: Option<
    Vec<(String, String)>,
>)
    ensures
        r.deep_view() == summary_query_of(
            asset_list.deep_view(),
            k as int,
            (window.start_time@, window.end_time@),
        ),
{
    let len: usize = asset_list.len();
    if k >= count_chunks(len) {
        return None;
    }
    let start: usize = k * CHUNK;
    let end: usize = if k < len / CHUNK {
        k * CHUNK + CHUNK
    } else {
        len
    };
    let ghost assets = asset_list.deep_view();
    let ghost chunk = chunk_of(assets, k as int);
    let ghost param = |a: AssetRecord| sensor_id_param(a);
    let mut query: Vec<(String, String)> = Vec::new();
    let mut i: usize = start;
    while i < end
        invariant
            start <= i <= end <= len,
            len == asset_list.len(),
            assets == asset_list.deep_view(),
            chunk == assets.subrange(start as int, end as int),
            param == |a: AssetRecord| sensor_id_param(a),
            query.deep_view() == chunk.take(i - start).filter_map(param),
        decreases end - i,
    {
        proof {
            chunk.lemma_filter_map_take_succ(param, i - start);
        }
        match &asset_list[i].sensor_id {
            Some(sensor_id) => {
                query.push(("sensorIds".to_owned(), sensor_id.clone()));
            },
            None => {},
        }
        i += 1;
    }
    assert(chunk.take(end - start) =~= chunk);
    query.push(("startTime".to_owned(), window.start_time.clone()));
    query.push(("endTime".to_owned(), window.end_time.clone()));
    Some(query)
}

/// Lays out the summary requests of a run: the query of each, in the order
/// in which they are sent. Fails where the year and the month have no
/// window.
pub fn get_numeric_sensor_monthly_summary(
    asset_list: &Vec<BasicAsset>,
    year: i32,
    month: u32,
) -> (r: Result<Vec<Vec<(String, String)>>, SsrError>)
    ensures
        match r {
            Ok(queries) => summary_queries(asset_list.deep_view(), year, month) == Ok::<
                Seq<Seq<(Seq<char>, Seq<char>)>>,
                SsrError,
            >(queries.deep_view()),
            Err(e) => summary_queries(asset_list.deep_view(), year, month) == Err::<
                Seq<Seq<(Seq<char>, Seq<char>)>>,
                SsrError,
            >(e),
        },
{
    let window = match month_window(year, month) {
        Ok(window) => window,
        Err(e) => return Err(e),
    };
    let count: usize = count_chunks(asset_list.len());
    let mut queries: Vec<Vec<(String, String)>> = Vec::new();
    let mut k: usize = 0;
    while k < count
        invariant
            k <= count,
            count == chunk_count(asset_list.len() as int),
            queries.len() == k,
            forall|j: int|
                0 <= j < k ==> (#[trigger] queries[j]).deep_view() == chunk_query(
                    chunk_of(asset_list.deep_view(), j),
                    (window.start_time@, window.end_time@),
                ),
        decreases count - k,
    {
        match summary_query(asset_list, k, &window) {
            Some(query) => queries.push(query),
            None => {},
        }
        k += 1;
    }
    assert(queries.deep_view() =~= Seq::new(
        chunk_count(asset_list.deep_view().len() as int) as nat,
        |k: int|
            chunk_query(
                chunk_of(asset_list.deep_view(), k),
                (window.start_time@, window.end_time@),
            ),
    ));
    Ok(queries)
}

/// The first summary of the list that is for the sensor `sensor_id`; `None`
/// where the list has none for it.
pub open spec fn first_summary(summaries: Seq<SensorSummary>, sensor_id: Seq<char>) -> Option<
    SensorSummary,
>
    decreases summaries.len(),
{
    if summaries.len() == 0 {
        None
    } else if summaries.first().sensor_id == sensor_id {
        Some(summaries.first())
    } else {
        first_summary(summaries.drop_first(), sensor_id)
    }
}

/// An asset after the join: an asset with a sensor has the readings of the
/// first summary for that sensor. An asset without a sensor, and one whose
/// sensor has no summary, stays as it is.
pub open spec fn joined(asset: AssetRecord, summaries: Seq<SensorSummary>) -> AssetRecord {
    match asset.sensor_id {
        None => asset,
        Some(sensor_id) => match first_summary(summaries, sensor_id) {
            None => asset,
            Some(summary) => AssetRecord { data_points: summary.readings, ..asset },
        },
    }
}

/// Finds the first summary for a sensor.
pub fn find_summary<'a>(sensor_data: &'a Vec<NumericSensorResponse>, sensor_id: &String) -> (r:
    Option<&'a NumericSensorResponse>)
    ensures
        r.deep_view() == first_summary(sensor_data.deep_view(), sensor_id@),
{
    let ghost summaries = sensor_data.deep_view();
    let mut i: usize = 0;
    assert(summaries.skip(0) =~= summaries);
    while i < sensor_data.len()
        invariant
            i <= sensor_data.len(),
            summaries == sensor_data.deep_view(),
            first_summary(summaries, sensor_id@) == first_summary(
                summaries.skip(i as int),
                sensor_id@,
            ),
        decreases sensor_data.len() - i,
    {
        assert(summaries.skip(i as int).drop_first() =~= summaries.skip(i + 1));
        if sensor_data[i].sensor_id == *sensor_id {
            return Some(&sensor_data[i]);
        }
        i += 1;
    }
    None
}

/// Copies a list of readings.
pub fn copy_readings(points: &Vec<NumericSensorDailySummaryDataPoint>) -> (copy: Vec<
    NumericSensorDailySummaryDataPoint,
>)
    ensures
        copy.deep_view() == points.deep_view(),
{
    let mut copy: Vec<NumericSensorDailySummaryDataPoint> = Vec::new();
    let mut i: usize = 0;
    while i < points.len()
        invariant
            i <= points.len(),
            copy.len() == i,
            forall|j: int| 0 <= j < i ==> (#[trigger] copy[j])@ == points[j]@,
        decreases points.len() - i,
    {
        copy.push(points[i].clone());
        i += 1;
    }
    copy
}

/// Joins the summaries onto one asset.
pub fn join_asset(asset: &mut BasicAsset, sensor_data: &Vec<NumericSensorResponse>)
    ensures
        final(asset)@ == joined(old(asset)@, sensor_data.deep_view()),
{
    let found = match &asset.sensor_id {
        Some(sensor_id) => find_summary(sensor_data, sensor_id),
        None => None,
    };
    match found {
        Some(summary) => {
            asset.sensor_data_points = copy_readings(&summary.sensor_data_points);
        },
        None => {},
    }
}

/// Joins the summaries onto the assets: each asset with a sensor receives
/// the readings of the first summary for that sensor.
pub fn map_sensor_data_to_asset(
    asset_list: &mut Vec<BasicAsset>,
    sensor_data: &Vec<NumericSensorResponse>,
)
    ensures
        final(asset_list).deep_view() == old(asset_list).deep_view().map_values(
            |a: AssetRecord| joined(a, sensor_data.deep_view()),
        ),
{
    let ghost before = asset_list.deep_view();
    let ghost summaries = sensor_data.deep_view();
    let mut i: usize = 0;
    while i < asset_list.len()
        invariant
            i <= asset_list.len(),
            asset_list.len() == before.len(),
            summaries == sensor_data.deep_view(),
            forall|j: int| 0 <= j < i ==> (#[trigger] asset_list[j])@ == joined(before[j], summaries),
            forall|j: int| i <= j < before.len() ==> (#[trigger] asset_list[j])@ == before[j],
        decreases asset_list.len() - i,
    {
        join_asset(&mut asset_list[i], sensor_data);
        i += 1;
    }
}

} // verus!
