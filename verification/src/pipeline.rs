//! A run, step by step.
//!
//! A run asks for the inventory, then for the custom properties of each
//! asset (where a property was asked for), then for the sensors of each
//! asset, then for the summaries of the sensors chunk by chunk, and joins
//! the summaries onto the assets. It sends one request at a time, and the
//! first failure ends it.
//!
//! The [`Pipeline`] decides what to ask for next and what to make of each
//! response; sending the request is left to the caller.

use vstd::prelude::*;

use crate::api_constants::{
    asset_resource_url, format_asset_resource_url, format_resource_url, resource_url,
    ASSET_API_PREFIX, ASSET_CUSTOM_PROPERTIES, ASSET_NUMERIC_SENSOR_DAILY_SUMMARY, ASSET_SENSORS,
};
use crate::api_data::{
    AssetRecord, BasicAsset, CustomProperty, NumericSensorResponse, SensorSummary,
};
use crate::api_functions::{
    asset_list_of, get_asset_custom_properties, get_asset_list, get_asset_sensors,
    get_numeric_sensor_monthly_summary, joined, map_sensor_data_to_asset, summary_queries,
    with_property, with_sensors,
};
use crate::cli::{inventory_query, inventory_query_of, AppConfig, SsrArgs};
use crate::json::{json_of, jsons_of, members_of, new_map, no_members, Json};
use crate::ssr_errors::SsrError;

verus! {

/// The part of a run that a request belongs to.
#[derive(Debug, Clone, Copy, PartialEq, Eq, Structural)]
pub enum Stage {
    /// The inventory is asked for.
    Inventory,
    /// The custom properties of the assets are asked for, asset by asset.
    Properties,
    /// The sensors of the assets are asked for, asset by asset.
    Sensors,
    /// The summaries are asked for, chunk by chunk.
    Summaries,
    /// The summaries are joined onto the assets: nothing is left to ask.
    Finished,
}

/// What a request asks for, and so what its response holds.
#[derive(Debug, Clone, Copy, PartialEq, Eq, Structural)]
pub enum RequestKind {
    AssetList,
    CustomProperties,
    Sensors,
    Summary,
}

/// What a run is started with.
#[derive(Debug, PartialEq, Eq)]
pub struct RunParams {
    /// The address of the instance.
    pub instance_url: String,
    /// The credential that every request carries.
    pub auth_header: String,
    /// The type of the assets to list.
    pub asset_type: String,
    /// How many assets of the inventory to pass over.
    pub offset: u32,
    /// How many assets to list at most.
    pub limit: u32,
    /// The name of the custom property to resolve, if one is asked for.
    pub custom_property: Option<String>,
    /// The name of the sensor to resolve.
    pub sensor_name: String,
    /// The year of the month to summarise.
    pub year: i32,
    /// The month to summarise.
    pub month: u32,
}

/// Model of [`RunParams`].
pub struct Params {
    pub instance_url: Seq<char>,
    pub auth_header: Seq<char>,
    pub asset_type: Seq<char>,
    pub offset: u32,
    pub limit: u32,
    pub custom_property: Option<Seq<char>>,
    pub sensor_name: Seq<char>,
    pub year: i32,
    pub month: u32,
}

impl View for RunParams {
    type V = Params;

    open spec fn view(&self) -> Params {
        Params {
            instance_url: self.instance_url@,
            auth_header: self.auth_header@,
            asset_type: self.asset_type@,
            offset: self.offset,
            limit: self.limit,
            custom_property: self.custom_property.deep_view(),
            sensor_name: self.sensor_name@,
            year: self.year,
            month: self.month,
        }
    }
}

/// What a run for the given configuration and arguments is started with.
pub open spec fn params_of(config: AppConfig, args: SsrArgs, auth_header: Seq<char>) -> Params {
    Params {
        instance_url: config.instance_url@,
        auth_header,
        asset_type: args.asset_type@,
        offset: args.offset,
        limit: args.limit,
        custom_property: args.custom_property.deep_view(),
        sensor_name: args.sensor@,
        year: args.year,
        month: args.month,
    }
}

impl RunParams {
    /// Puts together what a run is started with: the address of the
    /// instance out of the configuration, what to list, to resolve and to
    /// summarise out of the arguments, and the credential.
    pub fn new(config: &AppConfig, args: &SsrArgs, auth_header: &str) -> (params: RunParams)
        ensures
            params@ == params_of(*config, *args, auth_header@),
    {
        let custom_property = match &args.custom_property {
            Some(name) => Some(name.clone()),
            None => None,
        };
        RunParams {
            instance_url: config.instance_url.clone(),
            auth_header: auth_header.to_owned(),
            asset_type: args.asset_type.clone(),
            offset: args.offset,
            limit: args.limit,
            custom_property,
            sensor_name: args.sensor.clone(),
            year: args.year,
            month: args.month,
        }
    }
}

/// A request to the asset API: a `GET` of `url`, which sends and accepts
/// JSON and carries `authorization`. The inventory request has its query
/// in `parameters`; a summary request has its query in `query`, where a key
/// may stand more than once.
#[derive(Debug, PartialEq, Eq)]
pub struct Request {
    pub kind: RequestKind,
    pub url: String,
    pub parameters: serde_json::Map<String, serde_json::Value>,
    pub query: Vec<(String, String)>,
    pub authorization: String,
}

/// Model of a [`Request`].
pub struct RequestModel {
    pub kind: RequestKind,
    pub url: Seq<char>,
    pub parameters: Map<Seq<char>, Json>,
    pub query: Seq<(Seq<char>, Seq<char>)>,
    pub authorization: Seq<char>,
}

impl View for Request {
    type V = RequestModel;

    open spec fn view(&self) -> RequestModel {
        RequestModel {
            kind: self.kind,
            url: self.url@,
            parameters: members_of(self.parameters),
            query: self.query.deep_view(),
            authorization: self.authorization@,
        }
    }
}

impl DeepView for Request {
    type V = RequestModel;

    open spec fn deep_view(&self) -> RequestModel {
        self@
    }
}

/// What came of a request: the decoded body of the response, or nothing
/// where the request was not answered or was answered with an error.
#[derive(Debug, PartialEq, Eq)]
pub enum Response {
    AssetList(serde_json::Value),
    CustomProperties(Vec<CustomProperty>),
    Sensors(Vec<serde_json::Value>),
    Summary(Vec<NumericSensorResponse>),
    Failed,
}

/// Model of a [`Response`].
pub enum Event {
    AssetList(Json),
    CustomProperties(Seq<CustomProperty>),
    Sensors(Seq<Json>),
    Summary(Seq<SensorSummary>),
    Failed,
}

impl View for Response {
    type V = Event;

    open spec fn view(&self) -> Event {
        match self {
            Response::AssetList(resp) => Event::AssetList(json_of(*resp)),
            Response::CustomProperties(props) => Event::CustomProperties(props@),
            Response::Sensors(entries) => Event::Sensors(jsons_of(entries@)),
            Response::Summary(summaries) => Event::Summary(summaries.deep_view()),
            Response::Failed => Event::Failed,
        }
    }
}

/// Model of a run: what it was started with, and how far it has got.
pub struct RunState {
    pub params: Params,
    /// The stage that the run is in or, after a failure, has failed in.
    pub stage: Stage,
    /// In the stages that go asset by asset, the index of the asset that is
    /// asked about; in the summary stage, the index of the query.
    pub cursor: int,
    pub assets: Seq<AssetRecord>,
    /// The queries of the summary requests, once the summary stage is
    /// reached.
    pub queries: Seq<Seq<(Seq<char>, Seq<char>)>>,
    /// The summaries received so far.
    pub summaries: Seq<SensorSummary>,
    /// Why the run has failed, if it has.
    pub failure: Option<SsrError>,
}

/// A run before its first request.
pub open spec fn initial_state(params: Params) -> RunState {
    RunState {
        params,
        stage: Stage::Inventory,
        cursor: 0,
        assets: Seq::empty(),
        queries: Seq::empty(),
        summaries: Seq::empty(),
        failure: None,
    }
}

impl RunState {
    /// In a run that has not failed, the cursor points at an asset, or at a
    /// query, that is there. The stage of the properties has a property to
    /// look for, and the summary stage has the queries for its assets.
    pub open spec fn wf(self) -> bool {
        self.failure is None ==> match self.stage {
            Stage::Inventory => true,
            Stage::Properties => {
                &&& 0 <= self.cursor < self.assets.len()
                &&& self.params.custom_property is Some
            },
            Stage::Sensors => 0 <= self.cursor < self.assets.len(),
            Stage::Summaries => {
                &&& 0 <= self.cursor < self.queries.len()
                &&& summary_queries(self.assets, self.params.year, self.params.month) == Ok::<
                    Seq<Seq<(Seq<char>, Seq<char>)>>,
                    SsrError,
                >(self.queries)
            },
            Stage::Finished => true,
        }
    }

    /// Whether the run waits for a response.
    pub open spec fn is_running(self) -> bool {
        self.failure is None && self.stage != Stage::Finished
    }

    /// The run after it has failed with `error`. It stays in its stage.
    pub open spec fn failed(self, error: SsrError) -> RunState {
        RunState { failure: Some(error), ..self }
    }

    /// Moves on from a stage that has gone through all assets: from the
    /// properties to the sensors, and from the sensors to the summaries.
    /// The summary stage starts with the queries of its requests laid out,
    /// and fails where the year and the month have no window. Where there
    /// is no query, as there are no assets, nothing is left to ask and the
    /// run has finished.
    pub open spec fn settled(self) -> RunState {
        let s = if self.stage == Stage::Properties && self.cursor >= self.assets.len() {
            RunState { stage: Stage::Sensors, cursor: 0, ..self }
        } else {
            self
        };
        if s.stage == Stage::Sensors && s.cursor >= s.assets.len() {
            match summary_queries(s.assets, s.params.year, s.params.month) {
                Ok(queries) => RunState {
                    stage: if queries.len() == 0 {
                        Stage::Finished
                    } else {
                        Stage::Summaries
                    },
                    cursor: 0,
                    queries,
                    ..s
                },
                Err(error) => RunState {
                    stage: Stage::Summaries,
                    cursor: 0,
                    failure: Some(error),
                    ..s
                },
            }
        } else {
            s
        }
    }

    /// The request that the run sends next; `None` where it has finished or
    /// failed.
    pub open spec fn request(self) -> Option<RequestModel> {
        if self.failure is Some {
            None
        } else {
            match self.stage {
                Stage::Inventory => Some(
                    RequestModel {
                        kind: RequestKind::AssetList,
                        url: resource_url(self.params.instance_url, ASSET_API_PREFIX@),
                        parameters: inventory_query_of(
                            self.params.asset_type,
                            self.params.offset,
                            self.params.limit,
                        ),
                        query: Seq::empty(),
                        authorization: self.params.auth_header,
                    },
                ),
                Stage::Properties => Some(
                    RequestModel {
                        kind: RequestKind::CustomProperties,
                        url: asset_resource_url(
                            self.params.instance_url,
                            ASSET_CUSTOM_PROPERTIES@,
                            self.assets[self.cursor].id,
                        ),
                        parameters: no_members(),
                        query: Seq::empty(),
                        authorization: self.params.auth_header,
                    },
                ),
                Stage::Sensors => Some(
                    RequestModel {
                        kind: RequestKind::Sensors,
                        url: asset_resource_url(
                            self.params.instance_url,
                            ASSET_SENSORS@,
                            self.assets[self.cursor].id,
                        ),
                        parameters: no_members(),
                        query: Seq::empty(),
                        authorization: self.params.auth_header,
                    },
                ),
                Stage::Summaries => Some(
                    RequestModel {
                        kind: RequestKind::Summary,
                        url: resource_url(
                            self.params.instance_url,
                            ASSET_NUMERIC_SENSOR_DAILY_SUMMARY@,
                        ),
                        parameters: no_members(),
                        query: self.queries[self.cursor],
                        authorization: self.params.auth_header,
                    },
                ),
                Stage::Finished => None,
            }
        }
    }

    /// The run after the response to its request has arrived.
    ///
    /// A run that has finished or failed stays as it is. A request that
    /// failed fails the run, as does a response of another kind than the
    /// request asked for, and one that the stage cannot read.
    pub open spec fn step(self, event: Event) -> RunState {
        if !self.is_running() {
            self
        } else {
            match (self.stage, event) {
                (_, Event::Failed) => self.failed(SsrError::TransportFailure),
                (Stage::Inventory, Event::AssetList(resp)) => match asset_list_of(resp) {
                    Ok(assets) => RunState {
                        stage: if self.params.custom_property is Some {
                            Stage::Properties
                        } else {
                            Stage::Sensors
                        },
                        cursor: 0,
                        assets,
                        ..self
                    }.settled(),
                    Err(error) => self.failed(error),
                },
                (Stage::Properties, Event::CustomProperties(props)) => RunState {
                    cursor: self.cursor + 1,
                    assets: match self.params.custom_property {
                        Some(wanted) => self.assets.update(
                            self.cursor,
                            with_property(self.assets[self.cursor], props, wanted),
                        ),
                        None => self.assets,
                    },
                    ..self
                }.settled(),
                (Stage::Sensors, Event::Sensors(entries)) => match with_sensors(
                    self.assets[self.cursor],
                    entries,
                    self.params.sensor_name,
                ) {
                    Ok(asset) => RunState {
                        cursor: self.cursor + 1,
                        assets: self.assets.update(self.cursor, asset),
                        ..self
                    }.settled(),
                    Err(error) => self.failed(error),
                },
                (Stage::Summaries, Event::Summary(summaries)) => {
                    let received = self.summaries + summaries;
                    if self.cursor + 1 < self.queries.len() {
                        RunState { cursor: self.cursor + 1, summaries: received, ..self }
                    } else {
                        RunState {
                            stage: Stage::Finished,
                            cursor: 0,
                            assets: self.assets.map_values(|a: AssetRecord| joined(a, received)),
                            summaries: received,
                            ..self
                        }
                    }
                },
                _ => self.failed(SsrError::MalformedResponse),
            }
        }
    }

    /// The identifier of the asset that the run asks about, in the stages
    /// that go asset by asset.
    pub open spec fn asset_id(self) -> Option<Seq<char>> {
        if (self.stage == Stage::Properties || self.stage == Stage::Sensors) && 0 <= self.cursor
            < self.assets.len() {
            Some(self.assets[self.cursor].id)
        } else {
            None
        }
    }

    /// What comes of a run: its assets where it has finished, the error
    /// where it has failed. A run that is still waiting for a response has
    /// come to nothing yet.
    pub open spec fn outcome(self) -> Result<Seq<AssetRecord>, SsrError> {
        match self.failure {
            Some(error) => Err(error),
            None => if self.stage == Stage::Finished {
                Ok(self.assets)
            } else {
                Err(SsrError::Unfinished)
            },
        }
    }

    /// The run after a sequence of responses has arrived, one after another.
    pub open spec fn run(self, events: Seq<Event>) -> RunState
        decreases events.len(),
    {
        if events.len() == 0 {
            self
        } else {
            self.run(events.drop_last()).step(events.last())
        }
    }
}

/// What a [`Pipeline`] holds.
struct RunData {
    params: RunParams,
    stage: Stage,
    cursor: usize,
    assets: Vec<BasicAsset>,
    queries: Vec<Vec<(String, String)>>,
    sensor_data: Vec<NumericSensorResponse>,
    failure: Option<SsrError>,
}

impl RunData {
    /// The run that the data stands for.
    spec fn model(self) -> RunState {
        RunState {
            params: self.params@,
            stage: self.stage,
            cursor: self.cursor as int,
            assets: self.assets.deep_view(),
            queries: self.queries.deep_view(),
            summaries: self.sensor_data.deep_view(),
            failure: self.failure,
        }
    }

    /// Fails the run with `error`.
    fn fail(self, error: SsrError) -> (next: RunData)
        ensures
            next.model() == self.model().failed(error),
            next.model().wf(),
    {
        RunData { failure: Some(error), ..self }
    }

    /// Moves on from a stage that has gone through all assets.
    fn settle(self) -> (next: RunData)
        requires
            self.failure is None,
            self.cursor <= self.assets.len(),
            self.stage == Stage::Properties || self.stage == Stage::Sensors,
            self.stage == Stage::Properties ==> self.params.custom_property is Some,
        ensures
            next.model() == self.model().settled(),
            next.model().wf(),
    {
        let mut data = self;
        if data.stage == Stage::Properties && data.cursor >= data.assets.len() {
            data.stage = Stage::Sensors;
            data.cursor = 0;
        }
        if data.stage == Stage::Sensors && data.cursor >= data.assets.len() {
            data.stage = Stage::Summaries;
            data.cursor = 0;
            match get_numeric_sensor_monthly_summary(
                &data.assets,
                data.params.year,
                data.params.month,
            ) {
                Ok(queries) => {
                    if queries.len() == 0 {
                        data.stage = Stage::Finished;
                    }
                    data.queries = queries;
                },
                Err(error) => {
                    data.failure = Some(error);
                },
            }
        }
        data
    }

    /// Builds the request to send next.
    fn request(&self) -> (r: Option<Request>)
        requires
            self.model().wf(),
        ensures
            r.deep_view() == self.model().request(),
    {
        if self.failure.is_some() {
            return None;
        }
        let instance_url = self.params.instance_url.as_str();
        let authorization = self.params.auth_header.clone();
        match self.stage {
            Stage::Inventory => {
                let query: Vec<(String, String)> = Vec::new();
                assert(query.deep_view() =~= Seq::empty());
                Some(
                    Request {
                        kind: RequestKind::AssetList,
                        url: format_resource_url(instance_url, ASSET_API_PREFIX),
                        parameters: inventory_query(
                            &self.params.asset_type,
                            self.params.offset,
                            self.params.limit,
                        ),
                        query,
                        authorization,
                    },
                )
            },
            Stage::Properties => {
                let query: Vec<(String, String)> = Vec::new();
                assert(query.deep_view() =~= Seq::empty());
                Some(
                    Request {
                        kind: RequestKind::CustomProperties,
                        url: format_asset_resource_url(
                            instance_url,
                            ASSET_CUSTOM_PROPERTIES,
                            self.assets[self.cursor].id.as_str(),
                        ),
                        parameters: new_map(),
                        query,
                        authorization,
                    },
                )
            },
            Stage::Sensors => {
                let query: Vec<(String, String)> = Vec::new();
                assert(query.deep_view() =~= Seq::empty());
                Some(
                    Request {
                        kind: RequestKind::Sensors,
                        url: format_asset_resource_url(
                            instance_url,
                            ASSET_SENSORS,
                            self.assets[self.cursor].id.as_str(),
                        ),
                        parameters: new_map(),
                        query,
                        authorization,
                    },
                )
            },
            Stage::Summaries => Some(
                Request {
                    kind: RequestKind::Summary,
                    url: format_resource_url(instance_url, ASSET_NUMERIC_SENSOR_DAILY_SUMMARY),
                    parameters: new_map(),
                    query: copy_query(&self.queries[self.cursor]),
                    authorization,
                },
            ),
            Stage::Finished => None,
        }
    }

    /// Takes in what came of the request that was sent.
    fn accept(self, response: Response) -> (next: RunData)
        requires
            self.model().wf(),
        ensures
            next.model() == self.model().step(response@),
            next.model().wf(),
    {
        if self.failure.is_some() || self.stage == Stage::Finished {
            return self;
        }
        if let Response::Failed = response {
            return self.fail(SsrError::TransportFailure);
        }
        match self.stage {
            Stage::Inventory => match response {
                Response::AssetList(resp) => match get_asset_list(&resp) {
                    Ok(assets) => {
                        let stage = if self.params.custom_property.is_some() {
                            Stage::Properties
                        } else {
                            Stage::Sensors
                        };
                        RunData { stage, cursor: 0, assets, ..self }.settle()
                    },
                    Err(error) => self.fail(error),
                },
                _ => self.fail(SsrError::MalformedResponse),
            },
            Stage::Properties => match response {
                Response::CustomProperties(props) => {
                    assert(self.cursor < self.assets.len());
                    let mut data = self;
                    let ghost before = data.assets.deep_view();
                    match &data.params.custom_property {
                        Some(wanted) => {
                            get_asset_custom_properties(
                                &mut data.assets[data.cursor],
                                &props,
                                wanted.as_str(),
                            );
                            assert(data.assets.deep_view() =~= before.update(
                                data.cursor as int,
                                with_property(before[data.cursor as int], props@, wanted@),
                            ));
                        },
                        None => {},
                    }
                    data.cursor = data.cursor + 1;
                    data.settle()
                },
                _ => self.fail(SsrError::MalformedResponse),
            },
            Stage::Sensors => match response {
                Response::Sensors(entries) => {
                    assert(self.cursor < self.assets.len());
                    let mut data = self;
                    let ghost before = data.assets.deep_view();
                    match get_asset_sensors(
                        &mut data.assets[data.cursor],
                        &entries,
                        data.params.sensor_name.as_str(),
                    ) {
                        Ok(()) => {
                            assert(data.assets.deep_view() =~= before.update(
                                data.cursor as int,
                                data.assets[data.cursor as int]@,
                            ));
                            data.cursor = data.cursor + 1;
                            data.settle()
                        },
                        Err(error) => {
                            assert(data.assets.deep_view() =~= before);
                            data.fail(error)
                        },
                    }
                },
                _ => self.fail(SsrError::MalformedResponse),
            },
            Stage::Summaries => match response {
                Response::Summary(summaries) => {
                    assert(self.cursor < self.queries.len());
                    let mut data = self;
                    let mut summaries = summaries;
                    let ghost before = data.sensor_data.deep_view();
                    let ghost arrived = summaries.deep_view();
                    data.sensor_data.append(&mut summaries);
                    assert(data.sensor_data.deep_view() =~= before + arrived);
                    if data.cursor + 1 < data.queries.len() {
                        data.cursor = data.cursor + 1;
                    } else {
                        map_sensor_data_to_asset(&mut data.assets, &data.sensor_data);
                        data.stage = Stage::Finished;
                        data.cursor = 0;
                    }
                    data
                },
                _ => self.fail(SsrError::MalformedResponse),
            },
            Stage::Finished => self,
        }
    }
}

/// Copies a query.
pub fn copy_query(query: &Vec<(String, String)>) -> (copy: Vec<(String, String)>)
    ensures
        copy.deep_view() == query.deep_view(),
{
    let mut copy: Vec<(String, String)> = Vec::new();
    let mut i: usize = 0;
    while i < query.len()
        invariant
            i <= query.len(),
            copy.len() == i,
            forall|j: int| 0 <= j < i ==> (#[trigger] copy[j]).deep_view() == query[j].deep_view(),
        decreases query.len() - i,
    {
        copy.push((query[i].0.clone(), query[i].1.clone()));
        i += 1;
    }
    copy
}

/// A run of the report pipeline.
pub struct Pipeline {
    data: RunData,
}

impl View for Pipeline {
    type V = RunState;

    closed spec fn view(&self) -> RunState {
        self.data.model()
    }
}

impl Pipeline {
    /// Every run is well-formed, from its start to its end.
    #[verifier::type_invariant]
    spec fn inv(self) -> bool {
        self.data.model().wf()
    }

    /// Starts a run.
    pub fn new(params: RunParams) -> (run: Pipeline)
        ensures
            run@ == initial_state(params@),
            run@.wf(),
    {
        let data = RunData {
            params,
            stage: Stage::Inventory,
            cursor: 0,
            assets: Vec::new(),
            queries: Vec::new(),
            sensor_data: Vec::new(),
            failure: None,
        };
        assert(data.assets.deep_view() =~= Seq::empty());
        assert(data.queries.deep_view() =~= Seq::empty());
        assert(data.sensor_data.deep_view() =~= Seq::empty());
        Pipeline { data }
    }

    /// The request to send next; `None` where the run has finished or
    /// failed.
    pub fn next_request(&self) -> (r: Option<Request>)
        ensures
            r.deep_view() == self@.request(),
            self@.wf(),
    {
        proof {
            use_type_invariant(self);
        }
        self.data.request()
    }

    /// Takes the response to the request that was sent, and moves on.
    pub fn accept(self, response: Response) -> (next: Pipeline)
        ensures
            next@ == self@.step(response@),
            self@.wf(),
            next@.wf(),
    {
        proof {
            use_type_invariant(&self);
        }
        Pipeline { data: self.data.accept(response) }
    }

    /// The stage that the run is in or, after a failure, has failed in.
    pub fn stage(&self) -> (stage: Stage)
        ensures
            stage == self@.stage,
            self@.wf(),
    {
        proof {
            use_type_invariant(self);
        }
        self.data.stage
    }

    /// Where the run is within its stage: the index of the asset that is
    /// asked about or, in the summary stage, of the query. After a failure
    /// it says which asset, or which query, the run has failed at.
    pub fn cursor(&self) -> (cursor: usize)
        ensures
            cursor == self@.cursor,
            self@.wf(),
    {
        proof {
            use_type_invariant(self);
        }
        self.data.cursor
    }

    /// Why the run has failed, if it has.
    pub fn failure(&self) -> (failure: Option<SsrError>)
        ensures
            failure == self@.failure,
            self@.wf(),
    {
        proof {
            use_type_invariant(self);
        }
        self.data.failure
    }

    /// Whether the run has finished: the summaries are joined onto the
    /// assets.
    pub fn is_finished(&self) -> (finished: bool)
        ensures
            finished == (self@.failure is None && self@.stage == Stage::Finished),
    {
        self.data.failure.is_none() && self.data.stage == Stage::Finished
    }

    /// The identifier of the asset that the run asks about, in the stages
    /// that go asset by asset. After a failure in such a stage it says
    /// which asset the run has failed at.
    pub fn asset_id(&self) -> (id: Option<String>)
        ensures
            id.deep_view() == self@.asset_id(),
            self@.wf(),
    {
        proof {
            use_type_invariant(self);
        }
        let by_asset = match self.data.stage {
            Stage::Properties => true,
            Stage::Sensors => true,
            _ => false,
        };
        if by_asset && self.data.cursor < self.data.assets.len() {
            Some(self.data.assets[self.data.cursor].id.clone())
        } else {
            None
        }
    }

    /// Ends the run and hands out what came of it: the assets of a run that
    /// has finished, and the error of any other. A run that has failed, or
    /// has not finished, hands out no assets.
    pub fn into_assets(self) -> (r: Result<Vec<BasicAsset>, SsrError>)
        ensures
            match r {
                Ok(assets) => self@.outcome() == Ok::<Seq<AssetRecord>, SsrError>(
                    assets.deep_view(),
                ),
                Err(e) => self@.outcome() == Err::<Seq<AssetRecord>, SsrError>(e),
            },
    {
        match self.data.failure {
            Some(error) => Err(error),
            None => match self.data.stage {
                Stage::Finished => Ok(self.data.assets),
                _ => Err(SsrError::Unfinished),
            },
        }
    }
}

} // verus!
