//! What a run that goes well ends with.
//!
//! A run that receives the inventory, then a property list for each asset
//! (where a property was asked for), a sensor list for each asset, and a
//! batch of summaries for each of its queries, finishes. Its assets are
//! those of the inventory, in their order, each with its property and its
//! sensor resolved from its own lists and joined with all the summaries.

use vstd::prelude::*;

use crate::api_data::{AssetRecord, CustomProperty, SensorSummary};
use crate::api_functions::{
    asset_list_of, chunk_count, joined, sensor_scan, summary_queries, window_of, with_property,
    with_sensors,
};
use crate::json::Json;
use crate::pipeline::{initial_state, Event, Params, RunState, Stage};
use crate::pipeline_laws::lemma_run_split;
use crate::ssr_errors::SsrError;

verus! {

/// Property lists as the responses that bring them.
pub open spec fn property_events(lists: Seq<Seq<CustomProperty>>) -> Seq<Event> {
    lists.map_values(|list: Seq<CustomProperty>| Event::CustomProperties(list))
}

/// Sensor lists as the responses that bring them.
pub open spec fn sensor_events(lists: Seq<Seq<Json>>) -> Seq<Event> {
    lists.map_values(|list: Seq<Json>| Event::Sensors(list))
}

/// Batches of summaries as the responses that bring them.
pub open spec fn summary_events(batches: Seq<Seq<SensorSummary>>) -> Seq<Event> {
    batches.map_values(|batch: Seq<SensorSummary>| Event::Summary(batch))
}

/// The summaries of all batches, in the order in which they arrived.
pub open spec fn batches_joined(batches: Seq<Seq<SensorSummary>>) -> Seq<SensorSummary>
    decreases batches.len(),
{
    if batches.len() == 0 {
        Seq::empty()
    } else {
        batches_joined(batches.drop_last()) + batches.last()
    }
}

/// The assets after the property lists were read for the assets from
/// `from` on, one list for each asset.
pub open spec fn with_properties(
    assets: Seq<AssetRecord>,
    from: int,
    lists: Seq<Seq<CustomProperty>>,
    wanted: Seq<char>,
) -> Seq<AssetRecord> {
    Seq::new(
        assets.len(),
        |i: int|
            if from <= i < from + lists.len() {
                with_property(assets[i], lists[i - from], wanted)
            } else {
                assets[i]
            },
    )
}

/// The assets after the sensor lists were read for the assets from `from`
/// on, one list for each asset, where every list can be read.
pub open spec fn with_all_sensors(
    assets: Seq<AssetRecord>,
    from: int,
    lists: Seq<Seq<Json>>,
    wanted: Seq<char>,
) -> Seq<AssetRecord> {
    Seq::new(
        assets.len(),
        |i: int|
            if from <= i < from + lists.len() {
                with_sensors(assets[i], lists[i - from], wanted)->Ok_0
            } else {
                assets[i]
            },
    )
}

/// The assets of a run that went well: each asset of the inventory, with its
/// property and its sensor resolved from its own lists, joined with all
/// the summaries.
pub open spec fn complete_run_assets(
    params: Params,
    stubs: Seq<AssetRecord>,
    property_lists: Seq<Seq<CustomProperty>>,
    sensor_lists: Seq<Seq<Json>>,
    batches: Seq<Seq<SensorSummary>>,
) -> Seq<AssetRecord> {
    Seq::new(
        stubs.len(),
        |i: int|
            {
                let with_its_property = match params.custom_property {
                    Some(wanted) => with_property(stubs[i], property_lists[i], wanted),
                    None => stubs[i],
                };
                let with_its_sensor = with_sensors(
                    with_its_property,
                    sensor_lists[i],
                    params.sensor_name,
                )->Ok_0;
                joined(with_its_sensor, batches_joined(batches))
            },
    )
}

/// A run at the start of the stage of the properties, or of the sensors.
pub open spec fn at_stage(params: Params, stage: Stage, assets: Seq<AssetRecord>) -> RunState {
    RunState { stage, cursor: 0, assets, ..initial_state(params) }
}

/// A run at the start of the stage of the summaries.
pub open spec fn at_summaries(params: Params, assets: Seq<AssetRecord>) -> RunState {
    RunState {
        stage: Stage::Summaries,
        cursor: 0,
        assets,
        queries: summary_queries(assets, params.year, params.month)->Ok_0,
        ..initial_state(params)
    }
}

/// A run after the stage of the summaries.
pub open spec fn at_end(
    params: Params,
    assets: Seq<AssetRecord>,
    batches: Seq<Seq<SensorSummary>>,
) -> RunState {
    RunState {
        stage: Stage::Finished,
        cursor: 0,
        assets: assets.map_values(|a: AssetRecord| joined(a, batches_joined(batches))),
        summaries: batches_joined(batches),
        ..at_summaries(params, assets)
    }
}

/// A run from one sequence of responses on to the end of a second is the
/// run through the first, then through the second.
pub proof fn lemma_run_add(s: RunState, first: Seq<Event>, second: Seq<Event>)
    ensures
        s.run(first + second) == s.run(first).run(second),
{
    lemma_run_split(s, first + second, first.len() as int);
    assert((first + second).take(first.len() as int) =~= first);
    assert((first + second).skip(first.len() as int) =~= second);
}

/// A run through one response is one step.
pub proof fn lemma_run_one(s: RunState, event: Event)
    ensures
        s.run(seq![event]) == s.step(event),
{
    assert(s.run(seq![event].drop_last()) == s);
}

/// The stage of the properties reads one list for each asset, in the order
/// of the assets, and changes nothing else.
pub proof fn lemma_property_stage(s: RunState, lists: Seq<Seq<CustomProperty>>)
    requires
        s.wf(),
        s.is_running(),
        s.stage == Stage::Properties,
        s.cursor + lists.len() <= s.assets.len(),
    ensures
        s.run(property_events(lists)) == (RunState {
            cursor: s.cursor + lists.len(),
            assets: with_properties(s.assets, s.cursor, lists, s.params.custom_property->0),
            ..s
        }).settled(),
    decreases lists.len(),
{
    let wanted = s.params.custom_property->0;
    let events = property_events(lists);
    if lists.len() == 0 {
        assert(with_properties(s.assets, s.cursor, lists, wanted) =~= s.assets);
    } else {
        let front = lists.drop_last();
        lemma_property_stage(s, front);
        assert(events.drop_last() =~= property_events(front));
        let u = RunState {
            cursor: s.cursor + front.len(),
            assets: with_properties(s.assets, s.cursor, front, wanted),
            ..s
        };
        assert(u.assets.update(u.cursor, with_property(u.assets[u.cursor], lists.last(), wanted))
            =~= with_properties(s.assets, s.cursor, lists, wanted));
    }
}

/// The stage of the sensors reads one list for each asset, in the order of
/// the assets, and changes nothing else, where every list can be read.
pub proof fn lemma_sensor_stage(s: RunState, lists: Seq<Seq<Json>>)
    requires
        s.wf(),
        s.is_running(),
        s.stage == Stage::Sensors,
        s.cursor + lists.len() <= s.assets.len(),
        forall|i: int|
            0 <= i < lists.len() ==> sensor_scan(#[trigger] lists[i], s.params.sensor_name) is Ok,
    ensures
        s.run(sensor_events(lists)) == (RunState {
            cursor: s.cursor + lists.len(),
            assets: with_all_sensors(s.assets, s.cursor, lists, s.params.sensor_name),
            ..s
        }).settled(),
    decreases lists.len(),
{
    let wanted = s.params.sensor_name;
    let events = sensor_events(lists);
    if lists.len() == 0 {
        assert(with_all_sensors(s.assets, s.cursor, lists, wanted) =~= s.assets);
    } else {
        let front = lists.drop_last();
        lemma_sensor_stage(s, front);
        assert(events.drop_last() =~= sensor_events(front));
        let u = RunState {
            cursor: s.cursor + front.len(),
            assets: with_all_sensors(s.assets, s.cursor, front, wanted),
            ..s
        };
        assert(u.assets.update(
            u.cursor,
            with_sensors(u.assets[u.cursor], lists.last(), wanted)->Ok_0,
        ) =~= with_all_sensors(s.assets, s.cursor, lists, wanted));
    }
}

/// The stage of the summaries takes in one batch for each query, in the
/// order of the queries. With the batch for the last query it joins all
/// the summaries onto the assets, and the run has finished.
pub proof fn lemma_summary_stage(s: RunState, batches: Seq<Seq<SensorSummary>>)
    requires
        s.wf(),
        s.is_running(),
        s.stage == Stage::Summaries,
        s.cursor + batches.len() <= s.queries.len(),
    ensures
        s.cursor + batches.len() < s.queries.len() ==> s.run(summary_events(batches)) == (RunState {
            cursor: s.cursor + batches.len(),
            summaries: s.summaries + batches_joined(batches),
            ..s
        }),
        s.cursor + batches.len() == s.queries.len() ==> s.run(summary_events(batches)) == (RunState {
            stage: Stage::Finished,
            cursor: 0,
            assets: s.assets.map_values(
                |a: AssetRecord| joined(a, s.summaries + batches_joined(batches)),
            ),
            summaries: s.summaries + batches_joined(batches),
            ..s
        }),
    decreases batches.len(),
{
    if batches.len() > 0 {
        let front = batches.drop_last();
        lemma_summary_stage(s, front);
        assert(summary_events(batches).drop_last() =~= summary_events(front));
        assert((s.summaries + batches_joined(front)) + batches.last() =~= s.summaries
            + batches_joined(batches));
    }
}

/// With the inventory a run takes up its assets. It goes on to the
/// properties where one was asked for, else to the sensors; without assets
/// it has nothing to ask for and has finished.
pub proof fn lemma_inventory_read(params: Params, resp: Json)
    requires
        asset_list_of(resp) is Ok,
        window_of(params.year, params.month) is Ok,
    ensures
        ({
            let stubs = asset_list_of(resp)->Ok_0;
            let next = initial_state(params).run(seq![Event::AssetList(resp)]);
            &&& stubs.len() == 0 ==> next == at_end(params, stubs, Seq::empty())
            &&& stubs.len() > 0 && params.custom_property is Some ==> next == at_stage(
                params,
                Stage::Properties,
                stubs,
            )
            &&& stubs.len() > 0 && params.custom_property is None ==> next == at_stage(
                params,
                Stage::Sensors,
                stubs,
            )
        }),
{
    lemma_run_one(initial_state(params), Event::AssetList(resp));
    let stubs = asset_list_of(resp)->Ok_0;
    if stubs.len() == 0 {
        let none = Seq::<Seq<SensorSummary>>::empty();
        assert(at_end(params, stubs, none).assets =~= stubs);
        assert(at_end(params, stubs, none).queries =~= Seq::empty());
    }
}

/// With a property list for each asset the stage of the properties is gone
/// through, and the run goes on to the sensors.
pub proof fn lemma_properties_read(
    params: Params,
    assets: Seq<AssetRecord>,
    lists: Seq<Seq<CustomProperty>>,
)
    requires
        params.custom_property is Some,
        assets.len() > 0,
        lists.len() == assets.len(),
    ensures
        at_stage(params, Stage::Properties, assets).run(property_events(lists)) == at_stage(
            params,
            Stage::Sensors,
            with_properties(assets, 0, lists, params.custom_property->0),
        ),
{
    lemma_property_stage(at_stage(params, Stage::Properties, assets), lists);
}

/// With a sensor list for each asset the stage of the sensors is gone
/// through, and the run goes on to the summaries.
pub proof fn lemma_sensors_read(
    params: Params,
    assets: Seq<AssetRecord>,
    lists: Seq<Seq<Json>>,
)
    requires
        assets.len() > 0,
        lists.len() == assets.len(),
        forall|i: int|
            0 <= i < lists.len() ==> sensor_scan(#[trigger] lists[i], params.sensor_name) is Ok,
        window_of(params.year, params.month) is Ok,
    ensures
        at_stage(params, Stage::Sensors, assets).run(sensor_events(lists)) == at_summaries(
            params,
            with_all_sensors(assets, 0, lists, params.sensor_name),
        ),
{
    lemma_sensor_stage(at_stage(params, Stage::Sensors, assets), lists);
}

/// With a batch of summaries for each chunk of the assets the stage of the
/// summaries is gone through, and the run has finished.
pub proof fn lemma_summaries_read(
    params: Params,
    assets: Seq<AssetRecord>,
    batches: Seq<Seq<SensorSummary>>,
)
    requires
        assets.len() > 0,
        window_of(params.year, params.month) is Ok,
        batches.len() == chunk_count(assets.len() as int),
    ensures
        at_summaries(params, assets).run(summary_events(batches)) == at_end(
            params,
            assets,
            batches,
        ),
{
    lemma_summary_stage(at_summaries(params, assets), batches);
}

/// A run that goes well finishes, and ends with `complete_run_assets`.
///
/// The run is answered with the inventory, then with a property list for
/// each asset where a property was asked for, then with a sensor list for
/// each asset, then with a batch of summaries for each chunk of the assets.
/// It goes well where the inventory and every sensor list can be read and
/// the month has a window.
pub proof fn lemma_complete_run(
    params: Params,
    resp: Json,
    property_lists: Seq<Seq<CustomProperty>>,
    sensor_lists: Seq<Seq<Json>>,
    batches: Seq<Seq<SensorSummary>>,
)
    requires
        asset_list_of(resp) is Ok,
        params.custom_property is Some ==> property_lists.len() == asset_list_of(resp)->Ok_0.len(),
        params.custom_property is None ==> property_lists.len() == 0,
        sensor_lists.len() == asset_list_of(resp)->Ok_0.len(),
        forall|i: int|
            0 <= i < sensor_lists.len() ==> sensor_scan(
                #[trigger] sensor_lists[i],
                params.sensor_name,
            ) is Ok,
        window_of(params.year, params.month) is Ok,
        batches.len() == chunk_count(asset_list_of(resp)->Ok_0.len() as int),
    ensures
        ({
            let end = initial_state(params).run(
                seq![Event::AssetList(resp)] + property_events(property_lists) + sensor_events(
                    sensor_lists,
                ) + summary_events(batches),
            );
            &&& end.stage == Stage::Finished
            &&& end.failure is None
            &&& end.summaries == batches_joined(batches)
            &&& end.assets == complete_run_assets(
                params,
                asset_list_of(resp)->Ok_0,
                property_lists,
                sensor_lists,
                batches,
            )
            &&& end.outcome() == Ok::<Seq<AssetRecord>, SsrError>(end.assets)
        }),
{
    let stubs = asset_list_of(resp)->Ok_0;
    let start = initial_state(params);
    let first = seq![Event::AssetList(resp)];
    let p_events = property_events(property_lists);
    let s_events = sensor_events(sensor_lists);
    let b_events = summary_events(batches);
    lemma_run_add(start, first + p_events + s_events, b_events);
    lemma_run_add(start, first + p_events, s_events);
    lemma_run_add(start, first, p_events);
    lemma_inventory_read(params, resp);

    let with_their_properties = match params.custom_property {
        Some(wanted) => with_properties(stubs, 0, property_lists, wanted),
        None => stubs,
    };
    let with_their_sensors = with_all_sensors(
        with_their_properties,
        0,
        sensor_lists,
        params.sensor_name,
    );
    if stubs.len() == 0 {
        assert(with_their_sensors =~= stubs);
        assert(first + p_events + s_events + b_events =~= first);
        assert(batches =~= Seq::empty());
    } else {
        if params.custom_property is Some {
            lemma_properties_read(params, stubs, property_lists);
        }
        lemma_sensors_read(params, with_their_properties, sensor_lists);
        lemma_summaries_read(params, with_their_sensors, batches);
    }
    assert(at_end(params, with_their_sensors, batches).assets =~= complete_run_assets(
        params,
        stubs,
        property_lists,
        sensor_lists,
        batches,
    ));
}

} // verus!
