use ssr::api_data::{BasicAsset, NumericSensorDailySummaryDataPoint, NumericSensorResponse};
use ssr::api_functions::{
    copy_readings, count_chunks, find_summary, get_numeric_sensor_monthly_summary, join_asset,
    map_sensor_data_to_asset, summary_query, MonthWindow, CHUNK,
};
use ssr::ssr_errors::SsrError;

fn numbered_assets(count: usize) -> Vec<BasicAsset> {
    (0..count)
        .map(|i| BasicAsset {
            id: format!("A{}", i),
            name: format!("Asset {}", i),
            sensor_name: Some("power".to_string()),
            sensor_id: Some(format!("S{}", i)),
            sensor_unit: Some("kWh".to_string()),
            ..Default::default()
        })
        .collect()
}

fn pair(key: &str, value: &str) -> (String, String) {
    (key.to_string(), value.to_string())
}

fn february() -> MonthWindow {
    MonthWindow {
        start_time: "2023-02-01T00:00:00.000".to_string(),
        end_time: "2023-03-01T00:00:00.000".to_string(),
    }
}

fn reading(day: &str, avg: f64, max: f64, min: f64, lst: f64) -> NumericSensorDailySummaryDataPoint {
    NumericSensorDailySummaryDataPoint {
        r: day.to_string(),
        avg: avg.to_bits(),
        max: max.to_bits(),
        min: min.to_bits(),
        lst: lst.to_bits(),
    }
}

fn summary(sensor_id: &str, readings: Vec<NumericSensorDailySummaryDataPoint>) -> NumericSensorResponse {
    NumericSensorResponse {
        sensor_id: sensor_id.to_string(),
        sensor_type_description: "Power".to_string(),
        sensor_type_id: "T1".to_string(),
        name: "power".to_string(),
        sensor_data_points: readings,
    }
}

fn asset_with_sensor(sensor_id: Option<&str>) -> BasicAsset {
    BasicAsset {
        id: "A1".to_string(),
        name: "Rack 1".to_string(),
        sensor_name: sensor_id.map(|_| "power".to_string()),
        sensor_id: sensor_id.map(|s| s.to_string()),
        sensor_unit: sensor_id.map(|_| "kWh".to_string()),
        ..Default::default()
    }
}

#[test]
fn chunk_size_is_one_hundred() {
    assert_eq!(CHUNK, 100);
}

#[test]
fn chunk_counts() {
    assert_eq!(count_chunks(0), 0);
    assert_eq!(count_chunks(1), 1);
    assert_eq!(count_chunks(99), 1);
    assert_eq!(count_chunks(100), 1);
    assert_eq!(count_chunks(101), 2);
    assert_eq!(count_chunks(199), 2);
    assert_eq!(count_chunks(200), 2);
    assert_eq!(count_chunks(201), 3);
    assert_eq!(count_chunks(250), 3);
    assert_eq!(count_chunks(usize::MAX), usize::MAX / 100 + 1);
    assert_eq!(count_chunks(usize::MAX - usize::MAX % 100), usize::MAX / 100);
}

#[test]
fn two_hundred_fifty_assets_make_three_requests() {
    let assets = numbered_assets(250);
    let queries = get_numeric_sensor_monthly_summary(&assets, 2023, 2).unwrap();
    assert_eq!(queries.len(), 3);
    let sizes: Vec<usize> = queries
        .iter()
        .map(|q| q.iter().filter(|(key, _)| key == "sensorIds").count())
        .collect();
    assert_eq!(sizes, vec![100, 100, 50]);
    let sent: Vec<String> = queries
        .iter()
        .flat_map(|q| q.iter())
        .filter(|(key, _)| key == "sensorIds")
        .map(|(_, value)| value.clone())
        .collect();
    let expected: Vec<String> = (0..250).map(|i| format!("S{}", i)).collect();
    assert_eq!(sent, expected);
}

#[test]
fn every_request_ends_with_the_window() {
    let assets = numbered_assets(250);
    let queries = get_numeric_sensor_monthly_summary(&assets, 2023, 12).unwrap();
    for query in queries.iter() {
        let n = query.len();
        assert_eq!(query[n - 2], pair("startTime", "2023-12-01T00:00:00.000"));
        assert_eq!(query[n - 1], pair("endTime", "2024-01-01T00:00:00.000"));
    }
    assert_eq!(queries[0].len(), 102);
    assert_eq!(queries[1].len(), 102);
    assert_eq!(queries[2].len(), 52);
}

#[test]
fn one_request_for_a_few_assets() {
    let assets = numbered_assets(2);
    assert_eq!(
        get_numeric_sensor_monthly_summary(&assets, 2023, 2),
        Ok(vec![vec![
            pair("sensorIds", "S0"),
            pair("sensorIds", "S1"),
            pair("startTime", "2023-02-01T00:00:00.000"),
            pair("endTime", "2023-03-01T00:00:00.000"),
        ]])
    );
}

#[test]
fn no_assets_make_no_request() {
    assert_eq!(get_numeric_sensor_monthly_summary(&Vec::new(), 2023, 2), Ok(Vec::new()));
}

#[test]
fn two_hundred_assets_make_two_requests() {
    let assets = numbered_assets(200);
    let queries = get_numeric_sensor_monthly_summary(&assets, 2023, 2).unwrap();
    assert_eq!(queries.len(), 2);
    let sizes: Vec<usize> = queries
        .iter()
        .map(|q| q.iter().filter(|(key, _)| key == "sensorIds").count())
        .collect();
    assert_eq!(sizes, vec![100, 100]);
    assert_eq!(queries[0][0], pair("sensorIds", "S0"));
    assert_eq!(queries[0][99], pair("sensorIds", "S99"));
    assert_eq!(queries[1][0], pair("sensorIds", "S100"));
    assert_eq!(queries[1][99], pair("sensorIds", "S199"));
    assert_eq!(queries[1][100], pair("startTime", "2023-02-01T00:00:00.000"));
    assert_eq!(queries[1][101], pair("endTime", "2023-03-01T00:00:00.000"));
}

#[test]
fn one_hundred_assets_make_one_request() {
    let queries = get_numeric_sensor_monthly_summary(&numbered_assets(100), 2023, 2).unwrap();
    assert_eq!(queries.len(), 1);
    assert_eq!(queries[0].len(), 102);
    let queries = get_numeric_sensor_monthly_summary(&numbered_assets(101), 2023, 2).unwrap();
    assert_eq!(queries.len(), 2);
    assert_eq!(queries[1].len(), 3);
    assert_eq!(queries[1][0], pair("sensorIds", "S100"));
}

#[test]
fn no_request_is_without_assets() {
    for count in [1usize, 50, 99, 100, 101, 200, 250, 300, 301] {
        let queries = get_numeric_sensor_monthly_summary(&numbered_assets(count), 2023, 2).unwrap();
        assert_eq!(queries.len(), (count + 99) / 100);
        let mut total = 0;
        for query in queries.iter() {
            let ids = query.len() - 2;
            assert!(1 <= ids && ids <= 100);
            total += ids;
        }
        assert_eq!(total, count);
    }
}

#[test]
fn assets_without_sensor_are_left_out_of_the_query() {
    let mut assets = numbered_assets(4);
    assets[0].sensor_id = None;
    assets[2].sensor_id = None;
    assert_eq!(
        summary_query(&assets, 0, &february()),
        Some(vec![
            pair("sensorIds", "S1"),
            pair("sensorIds", "S3"),
            pair("startTime", "2023-02-01T00:00:00.000"),
            pair("endTime", "2023-03-01T00:00:00.000"),
        ])
    );
}

#[test]
fn query_of_a_chunk_holds_its_assets_only() {
    let assets = numbered_assets(205);
    let second = summary_query(&assets, 1, &february()).unwrap();
    assert_eq!(second.len(), 102);
    assert_eq!(second[0], pair("sensorIds", "S100"));
    assert_eq!(second[99], pair("sensorIds", "S199"));
    let third = summary_query(&assets, 2, &february()).unwrap();
    assert_eq!(third.len(), 7);
    assert_eq!(third[0], pair("sensorIds", "S200"));
    assert_eq!(third[4], pair("sensorIds", "S204"));
}

#[test]
fn there_is_no_query_beyond_the_last_chunk() {
    let assets = numbered_assets(5);
    assert!(summary_query(&assets, 0, &february()).is_some());
    assert_eq!(summary_query(&assets, 1, &february()), None);
    assert_eq!(summary_query(&assets, usize::MAX, &february()), None);
    assert_eq!(summary_query(&numbered_assets(200), 2, &february()), None);
    assert_eq!(summary_query(&Vec::new(), 0, &february()), None);
}

#[test]
fn assets_without_sensor_still_count_for_their_chunk() {
    let mut assets = numbered_assets(100);
    for asset in assets.iter_mut() {
        asset.sensor_id = None;
    }
    assert_eq!(
        get_numeric_sensor_monthly_summary(&assets, 2023, 2),
        Ok(vec![vec![
            pair("startTime", "2023-02-01T00:00:00.000"),
            pair("endTime", "2023-03-01T00:00:00.000"),
        ]])
    );
}

#[test]
fn summary_requests_fail_without_a_window() {
    let assets = numbered_assets(3);
    assert_eq!(get_numeric_sensor_monthly_summary(&assets, 2023, 13), Err(SsrError::YearMonthConversion));
    assert_eq!(get_numeric_sensor_monthly_summary(&assets, 2023, 0), Err(SsrError::YearMonthConversion));
    assert_eq!(get_numeric_sensor_monthly_summary(&Vec::new(), 2023, 13), Err(SsrError::YearMonthConversion));
}

#[test]
fn readings_are_copied_exactly() {
    let readings = vec![reading("2023-02-01", 1.0, 2.0, 0.5, 1.2), reading("2023-02-02", -0.0, 1e300, -1e-300, 0.1)];
    assert_eq!(copy_readings(&readings), readings);
    assert_eq!(copy_readings(&Vec::new()), Vec::new());
    assert_eq!(readings[0].clone(), readings[0]);
}

#[test]
fn first_summary_of_a_sensor_is_found() {
    let data = vec![
        summary("S2", vec![reading("2023-02-01", 9.0, 9.0, 9.0, 9.0)]),
        summary("S1", vec![reading("2023-02-01", 1.0, 2.0, 0.5, 1.2)]),
        summary("S1", vec![reading("2023-02-02", 7.0, 7.0, 7.0, 7.0)]),
    ];
    assert_eq!(find_summary(&data, &"S1".to_string()), Some(&data[1]));
    assert_eq!(find_summary(&data, &"S2".to_string()), Some(&data[0]));
    assert_eq!(find_summary(&data, &"S3".to_string()), None);
    assert_eq!(find_summary(&data, &"s1".to_string()), None);
    assert_eq!(find_summary(&data, &String::new()), None);
}

#[test]
fn asset_receives_the_readings_of_its_sensor() {
    let data = vec![summary("S1", vec![reading("2023-02-01", 1.0, 2.0, 0.5, 1.2)])];
    let mut with = asset_with_sensor(Some("S1"));
    join_asset(&mut with, &data);
    assert_eq!(with.sensor_data_points, vec![reading("2023-02-01", 1.0, 2.0, 0.5, 1.2)]);
    assert_eq!(f64::from_bits(with.sensor_data_points[0].avg), 1.0);
    assert_eq!(f64::from_bits(with.sensor_data_points[0].max), 2.0);
    assert_eq!(f64::from_bits(with.sensor_data_points[0].min), 0.5);
    assert_eq!(f64::from_bits(with.sensor_data_points[0].lst), 1.2);
    assert_eq!(with.sensor_id, Some("S1".to_string()));
    assert_eq!(with.id, "A1");
}

#[test]
fn asset_without_sensor_receives_nothing() {
    let data = vec![
        summary("S1", vec![reading("2023-02-01", 1.0, 2.0, 0.5, 1.2)]),
        summary("", vec![reading("2023-02-01", 3.0, 3.0, 3.0, 3.0)]),
    ];
    let mut without = asset_with_sensor(None);
    join_asset(&mut without, &data);
    assert_eq!(without, asset_with_sensor(None));
    assert!(without.sensor_data_points.is_empty());
}

#[test]
fn asset_without_summary_keeps_no_readings() {
    let data = vec![summary("S1", vec![reading("2023-02-01", 1.0, 2.0, 0.5, 1.2)])];
    let mut other = asset_with_sensor(Some("S9"));
    join_asset(&mut other, &data);
    assert_eq!(other, asset_with_sensor(Some("S9")));
    let mut alone = asset_with_sensor(Some("S1"));
    join_asset(&mut alone, &Vec::new());
    assert_eq!(alone, asset_with_sensor(Some("S1")));
}

#[test]
fn later_summaries_of_a_sensor_are_passed_over() {
    let data = vec![
        summary("S1", vec![reading("2023-02-01", 1.0, 2.0, 0.5, 1.2)]),
        summary("S1", vec![reading("2023-02-02", 7.0, 7.0, 7.0, 7.0), reading("2023-02-03", 8.0, 8.0, 8.0, 8.0)]),
    ];
    let mut asset = asset_with_sensor(Some("S1"));
    join_asset(&mut asset, &data);
    assert_eq!(asset.sensor_data_points, vec![reading("2023-02-01", 1.0, 2.0, 0.5, 1.2)]);
}

#[test]
fn first_summary_without_readings_gives_none() {
    let data = vec![summary("S1", Vec::new()), summary("S1", vec![reading("2023-02-02", 7.0, 7.0, 7.0, 7.0)])];
    let mut asset = asset_with_sensor(Some("S1"));
    join_asset(&mut asset, &data);
    assert!(asset.sensor_data_points.is_empty());
}

#[test]
fn join_goes_over_all_assets_in_order() {
    let data = vec![
        summary("S2", vec![reading("2023-02-01", 2.0, 2.0, 2.0, 2.0)]),
        summary("S0", vec![reading("2023-02-01", 0.5, 0.5, 0.5, 0.5), reading("2023-02-02", 0.6, 0.6, 0.6, 0.6)]),
    ];
    let mut assets = numbered_assets(4);
    assets[3].sensor_id = None;
    map_sensor_data_to_asset(&mut assets, &data);
    assert_eq!(assets.len(), 4);
    assert_eq!(assets[0].sensor_data_points, data[1].sensor_data_points);
    assert!(assets[1].sensor_data_points.is_empty());
    assert_eq!(assets[2].sensor_data_points, data[0].sensor_data_points);
    assert!(assets[3].sensor_data_points.is_empty());
    let ids: Vec<&str> = assets.iter().map(|a| a.id.as_str()).collect();
    assert_eq!(ids, vec!["A0", "A1", "A2", "A3"]);
}

#[test]
fn two_assets_with_one_sensor_both_receive_its_readings() {
    let data = vec![summary("S1", vec![reading("2023-02-01", 1.0, 2.0, 0.5, 1.2)])];
    let mut assets = vec![asset_with_sensor(Some("S1")), asset_with_sensor(Some("S1"))];
    map_sensor_data_to_asset(&mut assets, &data);
    assert_eq!(assets[0].sensor_data_points, data[0].sensor_data_points);
    assert_eq!(assets[1].sensor_data_points, data[0].sensor_data_points);
}
