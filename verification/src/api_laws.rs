//! What holds of the functions that read the responses, for every input.

use vstd::prelude::*;

use crate::api_data::{AssetRecord, CustomProperty, SensorSummary};
use crate::api_functions::{
    chunk_count, chunk_end, chunk_of, chunk_start, first_summary, folded_pairs, joined,
    last_value_where, names_sensor, next_month_start, property_matches, property_value,
    sensor_id_param, sensor_of, sensor_scan, window_of, with_property, with_sensor, with_sensors,
    Sensor, CHUNK,
};
use crate::calendar::{MonthStart, MAX_YEAR, MIN_YEAR};
use crate::json::Json;
use crate::cli::{asset_rows, report_rows, row_of};
use crate::ssr_errors::SsrError;
use crate::text::folded;

verus! {

/// The month after a month of the calendar is the next month of the same
/// year, and January of the next year after December. Only the last
/// December of the calendar has no month after it.
pub proof fn lemma_next_month(year: i32, month: u32)
    requires
        1 <= month <= 12,
        MIN_YEAR <= year <= MAX_YEAR,
    ensures
        month < 12 ==> next_month_start(year, month) == Ok::<MonthStart, SsrError>(
            MonthStart { year, month: (month + 1) as u32 },
        ),
        month == 12 && year < MAX_YEAR ==> next_month_start(year, month) == Ok::<
            MonthStart,
            SsrError,
        >(MonthStart { year: (year + 1) as i32, month: 1 }),
        month == 12 && year == MAX_YEAR ==> next_month_start(year, month) == Err::<
            MonthStart,
            SsrError,
        >(SsrError::YearMonthConversion),
        next_month_start(year, month) is Ok <==> window_of(year, month) is Ok,
{
}

/// A year and a month that the command line accepts, a year from 2020 to
/// 2029 and a month from 1 to 12, always have a window.
pub proof fn lemma_accepted_month_has_window(year: i32, month: u32)
    requires
        2020 <= year < 2030,
        1 <= month <= 12,
    ensures
        window_of(year, month) is Ok,
{
}

/// The assets are summarised in as few chunks as hold them all: none for
/// no assets, and one more for every `CHUNK` assets begun.
pub proof fn lemma_chunk_count(len: int)
    requires
        0 <= len,
    ensures
        chunk_count(len) == 0 <==> len == 0,
        (chunk_count(len) - 1) * CHUNK < len <= chunk_count(len) * CHUNK || len == 0,
        len % (CHUNK as int) == 0 ==> chunk_count(len) == len / (CHUNK as int),
        len % (CHUNK as int) != 0 ==> chunk_count(len) == len / (CHUNK as int) + 1,
{
}

/// The chunks lie one after another and cover the assets from the first
/// to the last. Every chunk holds at least one asset and at most `CHUNK`;
/// every chunk but the last holds exactly `CHUNK`, and the last holds what
/// is left after them.
pub proof fn lemma_chunk_bounds(len: int, k: int)
    requires
        0 <= len,
        0 <= k < chunk_count(len),
    ensures
        chunk_start(0, len) == 0,
        chunk_start(k, len) == k * CHUNK,
        0 <= chunk_start(k, len) < chunk_end(k, len) <= len,
        1 <= chunk_end(k, len) - chunk_start(k, len) <= CHUNK,
        k + 1 < chunk_count(len) ==> chunk_end(k, len) - chunk_start(k, len) == CHUNK,
        k + 1 < chunk_count(len) ==> chunk_end(k, len) == chunk_start(k + 1, len),
        k + 1 == chunk_count(len) ==> chunk_end(k, len) == len,
        k + 1 == chunk_count(len) ==> chunk_end(k, len) - chunk_start(k, len) == len - CHUNK * (
        chunk_count(len) - 1),
{
}

/// Every asset lies in exactly one chunk.
pub proof fn lemma_asset_in_one_chunk(len: int, i: int, k: int)
    requires
        0 <= i < len,
        0 <= k < chunk_count(len),
    ensures
        0 <= i / (CHUNK as int) < chunk_count(len),
        chunk_start(k, len) <= i < chunk_end(k, len) <==> k == i / (CHUNK as int),
{
}

/// The first `n` chunks of the assets, one after another.
pub open spec fn chunks_joined(assets: Seq<AssetRecord>, n: int) -> Seq<AssetRecord>
    decreases n,
{
    if n <= 0 {
        Seq::empty()
    } else {
        chunks_joined(assets, n - 1) + chunk_of(assets, n - 1)
    }
}

/// The first `n` chunks, one after another, are the assets up to the end of
/// the last of them.
pub proof fn lemma_chunks_joined(assets: Seq<AssetRecord>, n: int)
    requires
        0 < n <= chunk_count(assets.len() as int),
    ensures
        chunks_joined(assets, n) == assets.subrange(0, chunk_end(n - 1, assets.len() as int)),
    decreases n,
{
    let len = assets.len() as int;
    lemma_chunk_bounds(len, n - 1);
    if n == 1 {
        assert(chunks_joined(assets, 0) =~= Seq::empty());
    } else {
        lemma_chunks_joined(assets, n - 1);
        lemma_chunk_bounds(len, n - 2);
    }
}

/// The chunks, one after another, are the assets: each asset once, in its
/// place.
pub proof fn lemma_chunks_cover_assets(assets: Seq<AssetRecord>)
    ensures
        chunks_joined(assets, chunk_count(assets.len() as int)) == assets,
{
    let len = assets.len() as int;
    if len == 0 {
        assert(chunks_joined(assets, 0) =~= assets);
    } else {
        lemma_chunks_joined(assets, chunk_count(len));
        lemma_chunk_bounds(len, chunk_count(len) - 1);
    }
}

/// The sensor parameters of the first `n` queries, one after another.
pub open spec fn sensor_params_joined(assets: Seq<AssetRecord>, n: int) -> Seq<
    (Seq<char>, Seq<char>),
>
    decreases n,
{
    if n <= 0 {
        Seq::empty()
    } else {
        sensor_params_joined(assets, n - 1) + chunk_of(assets, n - 1).filter_map(
            |a: AssetRecord| sensor_id_param(a),
        )
    }
}

/// Filtering and mapping two sequences one after another is the same as
/// doing so to each and putting the results one after another.
pub proof fn lemma_filter_map_add<A, B>(a: Seq<A>, b: Seq<A>, f: spec_fn(A) -> Option<B>)
    ensures
        (a + b).filter_map(f) == a.filter_map(f) + b.filter_map(f),
    decreases b.len(),
{
    if b.len() > 0 {
        assert((a + b).drop_last() =~= a + b.drop_last());
        lemma_filter_map_add(a, b.drop_last(), f);
    }
}

/// The summary requests of a run name the sensor of every asset that has
/// one exactly once, in the order of the assets.
pub proof fn lemma_queries_name_each_sensor_once(assets: Seq<AssetRecord>)
    ensures
        sensor_params_joined(assets, chunk_count(assets.len() as int)) == assets.filter_map(
            |a: AssetRecord| sensor_id_param(a),
        ),
{
    let n = chunk_count(assets.len() as int);
    lemma_sensor_params_joined(assets, n);
    lemma_chunks_cover_assets(assets);
}

/// The sensor parameters of the first `n` queries are those of the first
/// `n` chunks taken together.
pub proof fn lemma_sensor_params_joined(assets: Seq<AssetRecord>, n: int)
    requires
        0 <= n,
    ensures
        sensor_params_joined(assets, n) == chunks_joined(assets, n).filter_map(
            |a: AssetRecord| sensor_id_param(a),
        ),
    decreases n,
{
    if n > 0 {
        lemma_sensor_params_joined(assets, n - 1);
        lemma_filter_map_add(
            chunks_joined(assets, n - 1),
            chunk_of(assets, n - 1),
            |a: AssetRecord| sensor_id_param(a),
        );
    }
}

/// Last pair wins: the value of a list of pairs for a name is the value of
/// the last pair with that name.
pub proof fn lemma_last_pair_wins(pairs: Seq<(Seq<char>, Seq<char>)>, wanted: Seq<char>, i: int)
    requires
        0 <= i < pairs.len(),
        pairs[i].0 == wanted,
        forall|j: int| i < j < pairs.len() ==> (#[trigger] pairs[j]).0 != wanted,
    ensures
        last_value_where(pairs, wanted) == Some(pairs[i].1),
    decreases pairs.len(),
{
    if i < pairs.len() - 1 {
        lemma_last_pair_wins(pairs.drop_last(), wanted, i);
    }
}

/// A list of pairs without the name has no value for it.
pub proof fn lemma_no_pair(pairs: Seq<(Seq<char>, Seq<char>)>, wanted: Seq<char>)
    requires
        forall|j: int| 0 <= j < pairs.len() ==> (#[trigger] pairs[j]).0 != wanted,
    ensures
        last_value_where(pairs, wanted) is None,
    decreases pairs.len(),
{
    if pairs.len() > 0 {
        lemma_no_pair(pairs.drop_last(), wanted);
    }
}

/// Last match wins: the value of a property list is the value of the last
/// property whose name matches.
pub proof fn lemma_last_property_wins(props: Seq<CustomProperty>, wanted: Seq<char>, i: int)
    requires
        0 <= i < props.len(),
        property_matches(props[i].name@, wanted),
        forall|j: int| i < j < props.len() ==> !property_matches((#[trigger] props[j]).name@, wanted),
    ensures
        property_value(props, wanted) == Some(props[i].value@),
{
    let pairs = folded_pairs(props);
    assert forall|j: int| i < j < pairs.len() implies (#[trigger] pairs[j]).0 != folded(wanted) by {
        assert(!property_matches(props[j].name@, wanted));
    }
    lemma_last_pair_wins(pairs, folded(wanted), i);
}

/// A property list without a matching name has no value, and leaves the
/// asset as it is.
pub proof fn lemma_no_property_matches(
    asset: AssetRecord,
    props: Seq<CustomProperty>,
    wanted: Seq<char>,
)
    requires
        forall|j: int| 0 <= j < props.len() ==> !property_matches((#[trigger] props[j]).name@, wanted),
    ensures
        property_value(props, wanted) is None,
        with_property(asset, props, wanted) == asset,
{
    let pairs = folded_pairs(props);
    assert forall|j: int| 0 <= j < pairs.len() implies (#[trigger] pairs[j]).0 != folded(wanted) by {
        assert(!property_matches(props[j].name@, wanted));
    }
    lemma_no_pair(pairs, folded(wanted));
}

/// Reading a sensor list succeeds exactly when every entry describes a
/// sensor and no sensor of the wanted name is other than numeric.
pub proof fn lemma_sensor_scan_succeeds(entries: Seq<Json>, wanted: Seq<char>)
    ensures
        sensor_scan(entries, wanted) is Ok <==> forall|j: int|
            0 <= j < entries.len() ==> {
                &&& sensor_of(#[trigger] entries[j]) is Some
                &&& sensor_of(entries[j])->0.name == wanted ==> sensor_of(entries[j])->0.is_numeric
            },
    decreases entries.len(),
{
    if entries.len() > 0 {
        let front = entries.drop_last();
        lemma_sensor_scan_succeeds(front, wanted);
        if sensor_scan(entries, wanted) is Ok {
            assert forall|j: int| 0 <= j < entries.len() implies {
                &&& sensor_of(#[trigger] entries[j]) is Some
                &&& sensor_of(entries[j])->0.name == wanted ==> sensor_of(entries[j])->0.is_numeric
            } by {
                if j < front.len() {
                    assert(front[j] == entries[j]);
                }
            }
        }
        if forall|j: int|
            0 <= j < entries.len() ==> {
                &&& sensor_of(#[trigger] entries[j]) is Some
                &&& sensor_of(entries[j])->0.name == wanted ==> sensor_of(entries[j])->0.is_numeric
            } {
            assert(forall|j: int|
                0 <= j < front.len() ==> {
                    &&& sensor_of(#[trigger] front[j]) is Some
                    &&& sensor_of(front[j])->0.name == wanted ==> sensor_of(front[j])->0.is_numeric
                });
        }
    }
}

/// Last match wins: where the reading of a sensor list succeeds, it finds
/// the last sensor of the wanted name.
pub proof fn lemma_last_sensor_wins(entries: Seq<Json>, wanted: Seq<char>, i: int)
    requires
        sensor_scan(entries, wanted) is Ok,
        0 <= i < entries.len(),
        names_sensor(entries[i], wanted),
        forall|j: int| i < j < entries.len() ==> !names_sensor(#[trigger] entries[j], wanted),
    ensures
        sensor_scan(entries, wanted) == Ok::<Option<Sensor>, SsrError>(
            sensor_of(entries[i]),
        ),
    decreases entries.len(),
{
    if i < entries.len() - 1 {
        lemma_last_sensor_wins(entries.drop_last(), wanted, i);
    }
}

/// Where the reading of a sensor list succeeds and no sensor has the wanted
/// name, it finds none, and the asset stays as it is.
pub proof fn lemma_no_sensor_matches(
    asset: AssetRecord,
    entries: Seq<Json>,
    wanted: Seq<char>,
)
    requires
        sensor_scan(entries, wanted) is Ok,
        forall|j: int| 0 <= j < entries.len() ==> !names_sensor(#[trigger] entries[j], wanted),
    ensures
        sensor_scan(entries, wanted) == Ok::<Option<Sensor>, SsrError>(None),
        with_sensors(asset, entries, wanted) == Ok::<AssetRecord, SsrError>(asset),
    decreases entries.len(),
{
    if entries.len() > 0 {
        lemma_no_sensor_matches(asset, entries.drop_last(), wanted);
    }
}

/// A sensor of the wanted name that is not numeric fails the reading of
/// the list with `NonNumericSensorUsed`, whatever follows it, where the
/// entries before it describe sensors.
pub proof fn lemma_non_numeric_sensor_fails(
    asset: AssetRecord,
    entries: Seq<Json>,
    wanted: Seq<char>,
    i: int,
)
    requires
        0 <= i < entries.len(),
        forall|j: int| 0 <= j < i ==> sensor_of(#[trigger] entries[j]) is Some,
        names_sensor(entries[i], wanted),
        !sensor_of(entries[i])->0.is_numeric,
    ensures
        sensor_scan(entries, wanted) == Err::<Option<Sensor>, SsrError>(
            SsrError::NonNumericSensorUsed,
        ),
        with_sensors(asset, entries, wanted) == Err::<AssetRecord, SsrError>(
            SsrError::NonNumericSensorUsed,
        ),
    decreases entries.len(),
{
    if i < entries.len() - 1 {
        lemma_non_numeric_sensor_fails(asset, entries.drop_last(), wanted, i);
    } else {
        lemma_decodable_scan(entries.drop_last(), wanted);
    }
}

/// Where every entry describes a sensor, the reading of the list can only
/// fail for a sensor that is not numeric.
pub proof fn lemma_decodable_scan(entries: Seq<Json>, wanted: Seq<char>)
    requires
        forall|j: int| 0 <= j < entries.len() ==> sensor_of(#[trigger] entries[j]) is Some,
    ensures
        sensor_scan(entries, wanted) is Err ==> sensor_scan(entries, wanted) == Err::<
            Option<Sensor>,
            SsrError,
        >(SsrError::NonNumericSensorUsed),
    decreases entries.len(),
{
    if entries.len() > 0 {
        lemma_decodable_scan(entries.drop_last(), wanted);
    }
}

/// The first summary for a sensor is the one before which the list has none
/// for that sensor; later ones for it are passed over.
pub proof fn lemma_first_summary_wins(summaries: Seq<SensorSummary>, sensor_id: Seq<char>, k: int)
    requires
        0 <= k < summaries.len(),
        summaries[k].sensor_id == sensor_id,
        forall|j: int| 0 <= j < k ==> (#[trigger] summaries[j]).sensor_id != sensor_id,
    ensures
        first_summary(summaries, sensor_id) == Some(summaries[k]),
    decreases summaries.len(),
{
    if k > 0 {
        lemma_first_summary_wins(summaries.drop_first(), sensor_id, k - 1);
    }
}

/// A list without a summary for a sensor has no first one for it.
pub proof fn lemma_no_summary(summaries: Seq<SensorSummary>, sensor_id: Seq<char>)
    requires
        forall|j: int| 0 <= j < summaries.len() ==> (#[trigger] summaries[j]).sensor_id != sensor_id,
    ensures
        first_summary(summaries, sensor_id) is None,
    decreases summaries.len(),
{
    if summaries.len() > 0 {
        lemma_no_summary(summaries.drop_first(), sensor_id);
    }
}

/// The join gives an asset with a sensor the readings of the first summary
/// for that sensor, and nothing else of the asset changes.
pub proof fn lemma_join_takes_first_summary(
    asset: AssetRecord,
    summaries: Seq<SensorSummary>,
    k: int,
)
    requires
        asset.sensor_id is Some,
        0 <= k < summaries.len(),
        summaries[k].sensor_id == asset.sensor_id->0,
        forall|j: int| 0 <= j < k ==> (#[trigger] summaries[j]).sensor_id != asset.sensor_id->0,
    ensures
        joined(asset, summaries) == (AssetRecord { data_points: summaries[k].readings, ..asset }),
{
    lemma_first_summary_wins(summaries, asset.sensor_id->0, k);
}

/// The join leaves an asset without a sensor as it is, whatever the
/// summaries hold: such an asset has no readings before the join and none
/// after it. The same holds of an asset whose sensor has no summary.
pub proof fn lemma_join_leaves_unmatched_asset(asset: AssetRecord, summaries: Seq<SensorSummary>)
    requires
        asset.sensor_id is None || forall|j: int|
            0 <= j < summaries.len() ==> (#[trigger] summaries[j]).sensor_id != asset.sensor_id->0,
    ensures
        joined(asset, summaries) == asset,
        asset.wf() && asset.sensor_id is None ==> joined(asset, summaries).data_points.len() == 0,
{
    if asset.sensor_id is Some {
        lemma_no_summary(summaries, asset.sensor_id->0);
    }
}

/// Resolving a property, resolving a sensor and the join keep an asset
/// well-formed.
pub proof fn lemma_asset_stays_well_formed(
    asset: AssetRecord,
    props: Seq<CustomProperty>,
    wanted: Seq<char>,
    sensor: Sensor,
    summaries: Seq<SensorSummary>,
)
    requires
        asset.wf(),
    ensures
        with_property(asset, props, wanted).wf(),
        with_sensor(asset, sensor).wf(),
        joined(asset, summaries).wf(),
{
}

/// The report has one row for each reading of an asset with a sensor, in
/// the order of the readings, and none for an asset without a sensor. For a
/// well-formed asset that is one row for each of its readings.
pub proof fn lemma_row_for_each_reading(asset: AssetRecord)
    ensures
        asset.sensor_name is None || asset.sensor_id is None ==> asset_rows(asset).len() == 0,
        asset.sensor_name is Some && asset.sensor_id is Some ==> {
            &&& asset_rows(asset).len() == asset.data_points.len()
            &&& forall|i: int|
                0 <= i < asset.data_points.len() ==> #[trigger] asset_rows(asset)[i] == row_of(
                    asset,
                    asset.sensor_name->0,
                    asset.sensor_id->0,
                    asset.data_points[i],
                )
        },
        asset.wf() ==> asset_rows(asset).len() == asset.data_points.len(),
{
}

/// The rows of the report stand in the order of the assets: the rows of
/// two lists of assets, one after the other, are the rows of the first
/// list followed by those of the second.
pub proof fn lemma_report_rows_add(a: Seq<AssetRecord>, b: Seq<AssetRecord>)
    ensures
        report_rows(a + b) == report_rows(a) + report_rows(b),
    decreases b.len(),
{
    if b.len() == 0 {
    } else {
        assert((a + b).drop_last() =~= a + b.drop_last());
        lemma_report_rows_add(a, b.drop_last());
    }
}

} // verus!
