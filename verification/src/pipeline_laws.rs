//! What holds of every run.

use vstd::prelude::*;

use crate::api_data::AssetRecord;
use crate::api_functions::{
    asset_list_of, chunk_count, chunk_of, chunk_query, sensor_scan, window_of, Sensor,
};
use crate::json::Json;
use crate::pipeline::{initial_state, Event, Params, RequestKind, RunState, Stage};
use crate::ssr_errors::SsrError;

verus! {

/// The place of a stage in the order of the stages.
pub open spec fn stage_rank(stage: Stage) -> int {
    match stage {
        Stage::Inventory => 0,
        Stage::Properties => 1,
        Stage::Sensors => 2,
        Stage::Summaries => 3,
        Stage::Finished => 4,
    }
}

/// Whether every asset of a run is well-formed.
pub open spec fn assets_wf(assets: Seq<AssetRecord>) -> bool {
    forall|i: int| 0 <= i < assets.len() ==> (#[trigger] assets[i]).wf()
}

/// A run starts well-formed, waiting for the inventory.
pub proof fn lemma_initial_state(params: Params)
    ensures
        initial_state(params).wf(),
        initial_state(params).is_running(),
        initial_state(params).request() is Some,
        initial_state(params).request()->0.kind == RequestKind::AssetList,
        assets_wf(initial_state(params).assets),
{
}

/// Every step keeps a run well-formed.
pub proof fn lemma_step_keeps_wf(s: RunState, event: Event)
    requires
        s.wf(),
    ensures
        s.step(event).wf(),
{
}

/// Every sequence of steps keeps a run well-formed.
pub proof fn lemma_run_keeps_wf(s: RunState, events: Seq<Event>)
    requires
        s.wf(),
    ensures
        s.run(events).wf(),
    decreases events.len(),
{
    if events.len() > 0 {
        lemma_run_keeps_wf(s, events.drop_last());
        lemma_step_keeps_wf(s.run(events.drop_last()), events.last());
    }
}

/// A run asks for something exactly as long as it has neither finished nor
/// failed, and what it asks for is what its stage says.
pub proof fn lemma_request_follows_stage(s: RunState)
    ensures
        s.request() is Some <==> s.is_running(),
        s.request() matches Some(r) ==> (r.kind == match s.stage {
            Stage::Inventory => RequestKind::AssetList,
            Stage::Properties => RequestKind::CustomProperties,
            Stage::Sensors => RequestKind::Sensors,
            _ => RequestKind::Summary,
        }),
        s.request() matches Some(r) ==> r.authorization == s.params.auth_header,
{
}

/// The stages follow one another in their order: a step never goes back
/// to an earlier stage. The stage of the properties is entered only where
/// a custom property was asked for.
pub proof fn lemma_stages_in_order(s: RunState, event: Event)
    ensures
        stage_rank(s.step(event).stage) >= stage_rank(s.stage),
        s.params.custom_property is None && s.stage != Stage::Properties ==> s.step(event).stage
            != Stage::Properties,
        s.step(event).params == s.params,
{
}

/// What `lemma_stages_in_order` says of one step holds of every sequence of
/// steps.
pub proof fn lemma_run_in_order(s: RunState, events: Seq<Event>)
    ensures
        stage_rank(s.run(events).stage) >= stage_rank(s.stage),
        s.params.custom_property is None && s.stage != Stage::Properties ==> s.run(events).stage
            != Stage::Properties,
        s.run(events).params == s.params,
    decreases events.len(),
{
    if events.len() > 0 {
        lemma_run_in_order(s, events.drop_last());
        lemma_stages_in_order(s.run(events.drop_last()), events.last());
    }
}

/// Every response moves a run forward: unless it fails the run, it takes
/// the run to the next asset, or the next query, of its stage, or to a
/// later stage.
pub proof fn lemma_step_makes_progress(s: RunState, event: Event)
    requires
        s.wf(),
        s.is_running(),
    ensures
        s.step(event).failure is Some || stage_rank(s.step(event).stage) > stage_rank(s.stage) || (
        s.step(event).stage == s.stage && s.step(event).cursor == s.cursor + 1),
        s.step(event).stage == Stage::Finished ==> (s.stage == Stage::Summaries && s.cursor + 1
            == s.queries.len()) || s.step(event).assets.len() == 0,
{
}

/// No partial output: a run hands out assets only where it has finished.
/// A run that has failed hands out its error, whatever it had built, and
/// what it hands out does not change after that.
pub proof fn lemma_no_partial_output(s: RunState, later: Seq<Event>)
    ensures
        s.outcome() is Ok <==> s.failure is None && s.stage == Stage::Finished,
        s.failure matches Some(error) ==> s.outcome() == Err::<Seq<AssetRecord>, SsrError>(error),
        !s.is_running() ==> s.run(later).outcome() == s.outcome(),
{
    if !s.is_running() {
        lemma_end_is_final(s, later);
    }
}

/// A run asks for a summary only where it has assets: a run without
/// assets finishes without a summary request.
pub proof fn lemma_no_assets_no_summary_request(s: RunState)
    requires
        s.wf(),
        s.is_running(),
        s.stage == Stage::Summaries,
    ensures
        s.assets.len() > 0,
        s.queries.len() > 0,
{
}

/// A run that has failed, and one that has finished, stays as it is and
/// asks for nothing more, whatever arrives.
pub proof fn lemma_end_is_final(s: RunState, events: Seq<Event>)
    requires
        !s.is_running(),
    ensures
        s.run(events) == s,
        s.request() is None,
    decreases events.len(),
{
    if events.len() > 0 {
        lemma_end_is_final(s, events.drop_last());
    }
}

/// A step that fails a run leaves it in the stage that it was in, or at
/// the start of the summary stage where the month has no window. It takes
/// in no summary.
pub proof fn lemma_failure_keeps_stage(s: RunState, event: Event)
    requires
        s.is_running(),
        s.step(event).failure is Some,
    ensures
        s.step(event).stage == s.stage || s.step(event).stage == Stage::Summaries,
        s.step(event).summaries == s.summaries,
{
}

/// In the stage of the summaries a run sends one request for each chunk of
/// its assets, and the request at the cursor asks for the sensors of the
/// chunk at the cursor, within the window of the month.
pub proof fn lemma_summary_request_names_chunk(s: RunState)
    requires
        s.wf(),
        s.is_running(),
        s.stage == Stage::Summaries,
    ensures
        window_of(s.params.year, s.params.month) is Ok,
        s.queries.len() == chunk_count(s.assets.len() as int),
        s.request() matches Some(r) && r.kind == RequestKind::Summary && r.query == chunk_query(
            chunk_of(s.assets, s.cursor),
            window_of(s.params.year, s.params.month)->Ok_0,
        ),
{
}

/// A run can be taken in two parts: the responses up to a point, then the
/// rest.
pub proof fn lemma_run_split(s: RunState, events: Seq<Event>, n: int)
    requires
        0 <= n <= events.len(),
    ensures
        s.run(events) == s.run(events.take(n)).run(events.skip(n)),
    decreases events.len(),
{
    if n == events.len() {
        assert(events.take(n) =~= events);
    } else {
        let front = events.drop_last();
        lemma_run_split(s, front, n);
        assert(front.take(n) =~= events.take(n));
        assert(front.skip(n) =~= events.skip(n).drop_last());
    }
}

/// A sensor of the wanted name that is not numeric ends the run: the run
/// fails with `NonNumericSensorUsed` in the stage of the sensors, and asks
/// for nothing after that, whatever arrives. No summary was asked for
/// before either, as the stage of the summaries comes after that of the
/// sensors.
pub proof fn lemma_non_numeric_sensor_ends_run(
    s: RunState,
    entries: Seq<Json>,
    later: Seq<Event>,
)
    requires
        s.wf(),
        s.is_running(),
        s.stage == Stage::Sensors,
        sensor_scan(entries, s.params.sensor_name) == Err::<
            Option<Sensor>,
            SsrError,
        >(SsrError::NonNumericSensorUsed),
    ensures
        s.step(Event::Sensors(entries)).failure == Some(SsrError::NonNumericSensorUsed),
        s.step(Event::Sensors(entries)).stage == Stage::Sensors,
        s.step(Event::Sensors(entries)).run(later).request() is None,
{
    lemma_end_is_final(s.step(Event::Sensors(entries)), later);
}

/// A request that failed ends the run: the run fails with
/// `TransportFailure` where it stands, and asks for nothing after that.
/// Nothing is tried again.
pub proof fn lemma_failed_request_ends_run(s: RunState, later: Seq<Event>)
    requires
        s.is_running(),
    ensures
        s.step(Event::Failed) == s.failed(SsrError::TransportFailure),
        s.step(Event::Failed).run(later) == s.failed(SsrError::TransportFailure),
        s.step(Event::Failed).run(later).request() is None,
{
    lemma_end_is_final(s.step(Event::Failed), later);
}

/// No summary is asked for before the sensors of all assets are resolved:
/// as long as a run has not got beyond the stage of the sensors, none of
/// the requests that it has sent asked for a summary.
pub proof fn lemma_summaries_come_last(start: RunState, events: Seq<Event>, n: int)
    requires
        0 <= n <= events.len(),
        stage_rank(start.run(events).stage) <= stage_rank(Stage::Sensors),
    ensures
        start.run(events.take(n)).request() matches Some(r) ==> r.kind != RequestKind::Summary,
{
    lemma_run_split(start, events, n);
    lemma_run_in_order(start.run(events.take(n)), events.skip(n));
    lemma_request_follows_stage(start.run(events.take(n)));
}

/// Two runs that differ in nothing but the credential.
pub open spec fn same_but_for_credential(a: RunState, b: RunState) -> bool {
    a == (RunState { params: Params { auth_header: a.params.auth_header, ..b.params }, ..b })
}

/// The credential has no part in what a step makes of a response.
pub proof fn lemma_step_ignores_credential(a: RunState, b: RunState, event: Event)
    requires
        same_but_for_credential(a, b),
    ensures
        same_but_for_credential(a.step(event), b.step(event)),
{
}

/// Running twice gives the same: two runs that are started with the same
/// parameters and receive the same responses end in the same state, with
/// the same assets. This holds even where the credentials of the two runs
/// differ.
pub proof fn lemma_run_is_repeatable(a: RunState, b: RunState, events: Seq<Event>)
    requires
        same_but_for_credential(a, b),
    ensures
        same_but_for_credential(a.run(events), b.run(events)),
        a.run(events).assets == b.run(events).assets,
        a.run(events).stage == b.run(events).stage,
        a.run(events).failure == b.run(events).failure,
    decreases events.len(),
{
    if events.len() > 0 {
        lemma_run_is_repeatable(a, b, events.drop_last());
        lemma_step_ignores_credential(
            a.run(events.drop_last()),
            b.run(events.drop_last()),
            events.last(),
        );
    }
}

/// The assets that an inventory response describes are well-formed.
pub proof fn lemma_asset_list_wf(resp: Json)
    ensures
        asset_list_of(resp) matches Ok(assets) ==> assets_wf(assets),
{
}

/// Every step keeps the assets of a run well-formed: an asset without a
/// sensor never has readings.
pub proof fn lemma_step_keeps_assets_wf(s: RunState, event: Event)
    requires
        s.wf(),
        assets_wf(s.assets),
    ensures
        assets_wf(s.step(event).assets),
{
    if let Event::AssetList(resp) = event {
        lemma_asset_list_wf(resp);
    }
}

/// The assets of a run are well-formed at every point of it.
pub proof fn lemma_run_keeps_assets_wf(params: Params, events: Seq<Event>)
    ensures
        initial_state(params).run(events).wf(),
        assets_wf(initial_state(params).run(events).assets),
    decreases events.len(),
{
    if events.len() > 0 {
        lemma_run_keeps_assets_wf(params, events.drop_last());
        lemma_step_keeps_assets_wf(initial_state(params).run(events.drop_last()), events.last());
        lemma_step_keeps_wf(initial_state(params).run(events.drop_last()), events.last());
    }
}

} // verus!
