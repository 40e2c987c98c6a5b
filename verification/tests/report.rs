use ssr::api_constants::{
    format_asset_resource_url, format_resource_url, ASSET_API_PREFIX, ASSET_CUSTOM_PROPERTIES,
    ASSET_NUMERIC_SENSOR_DAILY_SUMMARY, ASSET_SENSORS,
};
use ssr::api_data::{BasicAsset, NumericSensorDailySummaryDataPoint};
use ssr::auth::get_auth_header;
use ssr::cli::{
    get_config_path, get_debug_filter, inventory_query, push_asset_rows, text_or_not_available,
    write_output, AppConfig, LevelFilter, SensorReadingRow, SsrArgs,
};
use ssr::ssr_errors::SsrError;

fn day(r: &str, value: f64) -> NumericSensorDailySummaryDataPoint {
    NumericSensorDailySummaryDataPoint {
        r: r.to_string(),
        avg: value.to_bits(),
        max: (value + 1.0).to_bits(),
        min: (value - 1.0).to_bits(),
        lst: (value / 2.0).to_bits(),
    }
}

fn reported_asset(id: &str, readings: Vec<NumericSensorDailySummaryDataPoint>) -> BasicAsset {
    BasicAsset {
        id: id.to_string(),
        name: format!("Asset {}", id),
        custom_property: Some("Retail".to_string()),
        sensor_name: Some("power".to_string()),
        sensor_id: Some(format!("S-{}", id)),
        sensor_unit: Some("kWh".to_string()),
        sensor_data_points: readings,
    }
}

fn row(asset: &BasicAsset, reading: &NumericSensorDailySummaryDataPoint) -> SensorReadingRow {
    SensorReadingRow {
        asset_name: asset.name.clone(),
        asset_id: asset.id.clone(),
        custom_property: asset.custom_property.clone().unwrap_or("N/A".to_string()),
        sensor_name: asset.sensor_name.clone().unwrap(),
        sensor_id: asset.sensor_id.clone().unwrap(),
        sensor_unit: asset.sensor_unit.clone().unwrap_or("N/A".to_string()),
        timestamp: reading.r.clone(),
        avg: reading.avg,
        max: reading.max,
        min: reading.min,
        lst: reading.lst,
    }
}

#[test]
fn debug_filter_of_each_level() {
    assert_eq!(get_debug_filter(&"error".to_string()), LevelFilter::Error);
    assert_eq!(get_debug_filter(&"warn".to_string()), LevelFilter::Warn);
    assert_eq!(get_debug_filter(&"info".to_string()), LevelFilter::Info);
    assert_eq!(get_debug_filter(&"debug".to_string()), LevelFilter::Debug);
    assert_eq!(get_debug_filter(&"trace".to_string()), LevelFilter::Trace);
}

#[test]
fn debug_filter_of_unknown_level_is_info() {
    assert_eq!(get_debug_filter(&"".to_string()), LevelFilter::Info);
    assert_eq!(get_debug_filter(&"verbose".to_string()), LevelFilter::Info);
    assert_eq!(get_debug_filter(&"ERROR".to_string()), LevelFilter::Info);
    assert_eq!(get_debug_filter(&" error".to_string()), LevelFilter::Info);
    assert_eq!(get_debug_filter(&"off".to_string()), LevelFilter::Info);
}

#[test]
fn config_path_lies_below_home() {
    assert_eq!(get_config_path("/home/ann"), "/home/ann/.hyperview/hyperview.toml");
    assert_eq!(get_config_path(""), "/.hyperview/hyperview.toml");
}

#[test]
fn auth_header_is_bearer_and_token() {
    assert_eq!(get_auth_header("abc.def"), "Bearer abc.def");
    assert_eq!(get_auth_header(""), "Bearer ");
}

#[test]
fn resource_addresses() {
    assert_eq!(format_resource_url("https://dc.example", ASSET_API_PREFIX), "https://dc.example/api/asset/assets");
    assert_eq!(
        format_resource_url("https://dc.example", ASSET_NUMERIC_SENSOR_DAILY_SUMMARY),
        "https://dc.example/api/asset/sensorsDailySummaries/numeric"
    );
    assert_eq!(
        format_asset_resource_url("https://dc.example", ASSET_CUSTOM_PROPERTIES, "A1"),
        "https://dc.example/api/asset/customAssetProperties/A1"
    );
    assert_eq!(
        format_asset_resource_url("https://dc.example", ASSET_SENSORS, "A1"),
        "https://dc.example/api/asset/sensors/A1"
    );
}

#[test]
fn error_messages() {
    assert_eq!(SsrError::YearMonthConversion.message(), "Could not convert provided year and month");
    assert_eq!(
        SsrError::NonNumericSensorUsed.message(),
        "Invalid sensor type. Only numeric sensors are supported"
    );
    assert_eq!(SsrError::OutputFileExists.message(), "Output file already exists.");
    assert_eq!(
        SsrError::MalformedResponse.message(),
        "Malformed response. A required field is missing or has the wrong type"
    );
    assert_eq!(SsrError::TransportFailure.message(), "Request failed. The run was abandoned");
    assert_eq!(SsrError::Unfinished.message(), "The run has not finished");
}

#[test]
fn default_config_is_empty() {
    let config = AppConfig::default();
    assert_eq!(config.client_id, "");
    assert_eq!(config.client_secret, "");
    assert_eq!(config.scope, "");
    assert_eq!(config.auth_url, "");
    assert_eq!(config.token_url, "");
    assert_eq!(config.instance_url, "");
    let copy = config.clone();
    assert_eq!(copy.instance_url, config.instance_url);
}

#[test]
fn arguments_hold_what_they_are_given() {
    let args = SsrArgs {
        debug_level: "info".to_string(),
        asset_type: "Rack".to_string(),
        sensor: "averageKwhByHour".to_string(),
        custom_property: Some("Business Unit".to_string()),
        year: 2023,
        month: 2,
        offset: 0,
        limit: 50,
        output_file: "sensor_data_2023_02.csv".to_string(),
    };
    assert_eq!(args.year, 2023);
    assert_eq!(args.month, 2);
    assert_eq!(get_debug_filter(&args.debug_level), LevelFilter::Info);
}

#[test]
fn inventory_query_names_type_offset_limit_and_order() {
    let query = inventory_query(&"Rack".to_string(), 0, 50);
    let mut expected = serde_json::Map::new();
    expected.insert("assetType".to_string(), serde_json::Value::String("Rack".to_string()));
    expected.insert("(after)".to_string(), serde_json::Value::Number(0u32.into()));
    expected.insert("(limit)".to_string(), serde_json::Value::Number(50u32.into()));
    expected.insert("(sort)".to_string(), serde_json::Value::String("+Id".to_string()));
    assert_eq!(query, expected);
    assert_eq!(query.len(), 4);
    assert_eq!(
        serde_json::Value::Object(query).to_string(),
        r#"{"(after)":0,"(limit)":50,"(sort)":"+Id","assetType":"Rack"}"#
    );
    let later = inventory_query(&"PduAndRpp".to_string(), 99999, 250);
    assert_eq!(later.get("assetType").and_then(|v| v.as_str()), Some("PduAndRpp"));
    assert_eq!(later.get("(after)").and_then(|v| v.as_u64()), Some(99999));
    assert_eq!(later.get("(limit)").and_then(|v| v.as_u64()), Some(250));
    assert_eq!(later.get("(sort)").and_then(|v| v.as_str()), Some("+Id"));
    assert_eq!(inventory_query(&String::new(), u32::MAX, 0).get("(after)").and_then(|v| v.as_u64()), Some(4294967295));
}

#[test]
fn absent_text_is_not_available() {
    assert_eq!(text_or_not_available(&None), "N/A");
    assert_eq!(text_or_not_available(&Some("kWh".to_string())), "kWh");
    assert_eq!(text_or_not_available(&Some(String::new())), "");
}

#[test]
fn one_row_for_each_reading() {
    let first = reported_asset("1", vec![day("2023-02-01", 1.5), day("2023-02-02", 2.5)]);
    let second = reported_asset("2", vec![day("2023-02-01", 3.5)]);
    let rows = write_output(&vec![
        reported_asset("1", vec![day("2023-02-01", 1.5), day("2023-02-02", 2.5)]),
        reported_asset("2", vec![day("2023-02-01", 3.5)]),
    ]);
    assert_eq!(
        rows,
        vec![
            row(&first, &first.sensor_data_points[0]),
            row(&first, &first.sensor_data_points[1]),
            row(&second, &second.sensor_data_points[0]),
        ]
    );
    assert_eq!(rows[0].asset_name, "Asset 1");
    assert_eq!(rows[0].asset_id, "1");
    assert_eq!(rows[0].custom_property, "Retail");
    assert_eq!(rows[0].sensor_name, "power");
    assert_eq!(rows[0].sensor_id, "S-1");
    assert_eq!(rows[0].sensor_unit, "kWh");
    assert_eq!(rows[0].timestamp, "2023-02-01");
    assert_eq!(f64::from_bits(rows[0].avg), 1.5);
    assert_eq!(f64::from_bits(rows[0].max), 2.5);
    assert_eq!(f64::from_bits(rows[0].min), 0.5);
    assert_eq!(f64::from_bits(rows[0].lst), 0.75);
}

#[test]
fn absent_property_and_unit_are_written_as_not_available() {
    let mut asset = reported_asset("1", vec![day("2023-02-01", 1.5)]);
    asset.custom_property = None;
    asset.sensor_unit = None;
    let rows = write_output(&vec![asset]);
    assert_eq!(rows.len(), 1);
    assert_eq!(rows[0].custom_property, "N/A");
    assert_eq!(rows[0].sensor_unit, "N/A");
}

#[test]
fn asset_without_readings_has_no_rows() {
    let rows = write_output(&vec![
        reported_asset("1", Vec::new()),
        reported_asset("2", vec![day("2023-02-01", 3.5)]),
        reported_asset("3", Vec::new()),
    ]);
    assert_eq!(rows.len(), 1);
    assert_eq!(rows[0].asset_id, "2");
}

#[test]
fn asset_without_sensor_has_no_rows() {
    let unresolved = BasicAsset::new("1".to_string(), "Asset 1".to_string());
    assert_eq!(write_output(&vec![unresolved]), Vec::new());
    assert_eq!(write_output(&Vec::new()), Vec::new());
}

#[test]
fn rows_are_appended_after_those_already_there() {
    let first = reported_asset("1", vec![day("2023-02-01", 1.5)]);
    let second = reported_asset("2", vec![day("2023-02-01", 3.5), day("2023-02-02", 4.5)]);
    let mut rows = Vec::new();
    push_asset_rows(&mut rows, &first);
    push_asset_rows(&mut rows, &BasicAsset::new("x".to_string(), "none".to_string()));
    push_asset_rows(&mut rows, &second);
    assert_eq!(
        rows,
        vec![
            row(&first, &first.sensor_data_points[0]),
            row(&second, &second.sensor_data_points[0]),
            row(&second, &second.sensor_data_points[1]),
        ]
    );
}
