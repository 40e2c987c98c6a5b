//! The records that a report run works on, and their mathematical models.

use vstd::prelude::*;

verus! {

/// One day's summary of a numeric sensor.
///
/// The four measures are binary64 numbers. Nothing here computes with them,
/// so each is held as its bit pattern, which keeps the record exact.
#[derive(Debug, Default, PartialEq, Eq)]
pub struct NumericSensorDailySummaryDataPoint {
    /// The day that the summary is for, as the backend writes it.
    pub r: String,
    /// Bit pattern of the day's average.
    pub avg: u64,
    /// Bit pattern of the day's maximum.
    pub max: u64,
    /// Bit pattern of the day's minimum.
    pub min: u64,
    /// Bit pattern of the day's last value.
    pub lst: u64,
}

/// Model of a [`NumericSensorDailySummaryDataPoint`].
pub struct Reading {
    pub timestamp: Seq<char>,
    pub avg: u64,
    pub max: u64,
    pub min: u64,
    pub last: u64,
}

impl View for NumericSensorDailySummaryDataPoint {
    type V = Reading;

    open spec fn view(&self) -> Reading {
        Reading {
            timestamp: self.r@,
            avg: self.avg,
            max: self.max,
            min: self.min,
            last: self.lst,
        }
    }
}

impl DeepView for NumericSensorDailySummaryDataPoint {
    type V = Reading;

    open spec fn deep_view(&self) -> Reading {
        self@
    }
}

impl Clone for NumericSensorDailySummaryDataPoint {
    fn clone(&self) -> (res: Self)
        ensures
            res@ == self@,
    {
        NumericSensorDailySummaryDataPoint {
            r: self.r.clone(),
            avg: self.avg,
            max: self.max,
            min: self.min,
            lst: self.lst,
        }
    }
}

/// The summaries of one sensor over the month asked for.
#[derive(Debug, PartialEq, Eq)]
pub struct NumericSensorResponse {
    pub sensor_id: String,
    pub sensor_type_description: String,
    pub sensor_type_id: String,
    pub name: String,
    pub sensor_data_points: Vec<NumericSensorDailySummaryDataPoint>,
}

/// Model of a [`NumericSensorResponse`].
pub struct SensorSummary {
    pub sensor_id: Seq<char>,
    pub sensor_type_description: Seq<char>,
    pub sensor_type_id: Seq<char>,
    pub sensor_name: Seq<char>,
    pub readings: Seq<Reading>,
}

impl View for NumericSensorResponse {
    type V = SensorSummary;

    open spec fn view(&self) -> SensorSummary {
        SensorSummary {
            sensor_id: self.sensor_id@,
            sensor_type_description: self.sensor_type_description@,
            sensor_type_id: self.sensor_type_id@,
            sensor_name: self.name@,
            readings: self.sensor_data_points.deep_view(),
        }
    }
}

impl DeepView for NumericSensorResponse {
    type V = SensorSummary;

    open spec fn deep_view(&self) -> SensorSummary {
        self@
    }
}

/// A custom property of an asset, as the backend lists it.
#[derive(Debug, PartialEq, Eq)]
pub struct CustomProperty {
    pub id: String,
    pub custom_asset_property_key_id: String,
    pub custom_asset_property_group_id: String,
    pub value: String,
    pub data_type: String,
    pub name: String,
    pub group_name: String,
    pub data_source: String,
    pub updated_date_time: String,
    pub unit: String,
}

/// An asset of the inventory, with what a run has learnt about it.
#[derive(Debug, Default, PartialEq, Eq)]
pub struct BasicAsset {
    pub id: String,
    pub name: String,
    pub custom_property: Option<String>,
    pub sensor_name: Option<String>,
    pub sensor_id: Option<String>,
    pub sensor_unit: Option<String>,
    pub sensor_data_points: Vec<NumericSensorDailySummaryDataPoint>,
}

/// Model of a [`BasicAsset`].
pub struct AssetRecord {
    pub id: Seq<char>,
    pub name: Seq<char>,
    pub custom_property: Option<Seq<char>>,
    pub sensor_name: Option<Seq<char>>,
    pub sensor_id: Option<Seq<char>>,
    pub sensor_unit: Option<Seq<char>>,
    pub data_points: Seq<Reading>,
}

impl View for BasicAsset {
    type V = AssetRecord;

    open spec fn view(&self) -> AssetRecord {
        AssetRecord {
            id: self.id@,
            name: self.name@,
            custom_property: self.custom_property.deep_view(),
            sensor_name: self.sensor_name.deep_view(),
            sensor_id: self.sensor_id.deep_view(),
            sensor_unit: self.sensor_unit.deep_view(),
            data_points: self.sensor_data_points.deep_view(),
        }
    }
}

impl DeepView for BasicAsset {
    type V = AssetRecord;

    open spec fn deep_view(&self) -> AssetRecord {
        self@
    }
}

/// An asset as the inventory lists it: nothing is known of it but its
/// identifier and its name.
pub open spec fn asset_stub(id: Seq<char>, name: Seq<char>) -> AssetRecord {
    AssetRecord {
        id,
        name,
        custom_property: None,
        sensor_name: None,
        sensor_id: None,
        sensor_unit: None,
        data_points: Seq::empty(),
    }
}

impl AssetRecord {
    /// An asset without a sensor has no readings, and a sensor is known by
    /// its name, its identifier and its unit together.
    pub open spec fn wf(self) -> bool {
        &&& self.sensor_id is None ==> self.data_points.len() == 0
        &&& self.sensor_id is Some <==> self.sensor_name is Some
        &&& self.sensor_id is Some <==> self.sensor_unit is Some
    }
}

impl BasicAsset {
    /// The asset that the inventory lists under `id` and `name`.
    pub fn new(id: String, name: String) -> (asset: BasicAsset)
        ensures
            asset@ == asset_stub(id@, name@),
            asset@.wf(),
    {
        let asset = BasicAsset {
            id,
            name,
            custom_property: None,
            sensor_name: None,
            sensor_id: None,
            sensor_unit: None,
            sensor_data_points: Vec::new(),
        };
        assert(asset.sensor_data_points.deep_view() =~= Seq::empty());
        asset
    }
}

} // verus!
