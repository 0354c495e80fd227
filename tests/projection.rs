use givenergy_chart::chart::{build_chart, project, DataPoint, PowerReading, Quantity};
use givenergy_chart::error::ProjectionError;

fn point(time: &str, solar: f32, grid: f32, battery: f32, percent: f32, consumption: f32) -> DataPoint {
    DataPoint {
        time: time.to_string(),
        power: PowerReading {
            solar: solar.to_bits(),
            grid: grid.to_bits(),
            battery: battery.to_bits(),
            battery_percent: percent.to_bits(),
            consumption: consumption.to_bits(),
        },
    }
}

const T1: &str = "2024-01-01T00:00:00Z";
const T2: &str = "2024-01-02T00:05:00Z";
const T1_MS: i64 = 1_704_067_200_000;
const T2_MS: i64 = 1_704_153_900_000;

#[test]
fn two_days_one_point_each() {
    let points = vec![
        point(T1, 100.0, -20.0, 5.0, 80.0, 130.0),
        point(T2, 100.0, -20.0, 5.0, 80.0, 130.0),
    ];
    let c = project(&points).unwrap();
    assert_eq!(c.series.len(), 5);
    for s in &c.series {
        assert_eq!(s.data.len(), 2);
    }
    let pct = &c.series[4];
    assert_eq!(pct.name, "Battery %");
    assert_eq!(pct.y_axis_index, Some(1));
    let values: Vec<f32> = pct.data.iter().map(|&(_, v)| f32::from_bits(v)).collect();
    assert_eq!(values, vec![80.0, 80.0]);
    assert_eq!(f32::from_bits(c.series[0].data[0].1), 130.0);
    assert_eq!(f32::from_bits(c.series[1].data[0].1), 5.0);
    assert_eq!(f32::from_bits(c.series[2].data[0].1), 100.0);
    assert_eq!(f32::from_bits(c.series[3].data[0].1), -20.0);
}

#[test]
fn every_series_follows_the_readings() {
    let points = vec![
        point(T2, 1.0, 2.0, 3.0, 4.0, 5.0),
        point(T1, 6.0, 7.0, 8.0, 9.0, 10.0),
        point(T2, 11.0, 12.0, 13.0, 14.0, 15.0),
    ];
    let c = project(&points).unwrap();
    for s in &c.series {
        let instants: Vec<i64> = s.data.iter().map(|&(t, _)| t).collect();
        assert_eq!(instants, vec![T2_MS, T1_MS, T2_MS]);
    }
}

#[test]
fn only_battery_percent_uses_second_axis() {
    let c = project(&vec![point(T1, 1.0, 2.0, 3.0, 4.0, 5.0)]).unwrap();
    let names: Vec<&str> = c.series.iter().map(|s| s.name.as_str()).collect();
    assert_eq!(names, vec!["Consumption", "Battery", "Solar", "Grid", "Battery %"]);
    assert_eq!(c.legend, vec!["Consumption", "Battery", "Solar", "Grid", "Battery %"]);
    for s in &c.series {
        if s.quantity == Quantity::BatteryPercent {
            assert_eq!(s.y_axis_index, Some(1));
        } else {
            assert_eq!(s.y_axis_index, None);
        }
    }
    assert_eq!(c.y_axes.len(), 2);
    assert_eq!(c.y_axes[0].name, "Power (W)");
    assert!(c.y_axes[0].split_line);
    assert_eq!(c.y_axes[1].name, "Battery %");
    assert!(!c.y_axes[1].split_line);
}

#[test]
fn no_readings_give_empty_series() {
    let c = project(&vec![]).unwrap();
    assert_eq!(c.series.len(), 5);
    assert!(c.series.iter().all(|s| s.data.is_empty()));
}

#[test]
fn offset_timestamps_are_converted_to_utc() {
    let c = project(&vec![point("2024-01-01T01:00:00+01:00", 0.0, 0.0, 0.0, 0.0, 0.0)]).unwrap();
    assert_eq!(c.series[0].data[0].0, T1_MS);
    let c = project(&vec![point("2024-01-01T00:00:00.250Z", 0.0, 0.0, 0.0, 0.0, 0.0)]).unwrap();
    assert_eq!(c.series[0].data[0].0, T1_MS + 250);
}

#[test]
fn unparsable_timestamp_is_reported_with_position() {
    let points = vec![
        point(T1, 0.0, 0.0, 0.0, 0.0, 0.0),
        point("yesterday", 0.0, 0.0, 0.0, 0.0, 0.0),
        point("later", 0.0, 0.0, 0.0, 0.0, 0.0),
    ];
    match project(&points) {
        Err(ProjectionError::UnparsableTimestamp { raw, index }) => {
            assert_eq!(raw, "yesterday");
            assert_eq!(index, 1);
            let e = ProjectionError::UnparsableTimestamp { raw, index }.into_component_error();
            assert_eq!(e.message, "Failed to parse date/time.");
            assert_eq!(e.inner, vec!["yesterday".to_string()]);
        }
        Ok(_) => panic!("expected a parse failure"),
    }
}

#[test]
fn chart_at_given_instants() {
    let points = vec![point(T1, 1.0, 2.0, 3.0, 4.0, 5.0)];
    let c = build_chart(&vec![42], &points);
    assert_eq!(c.series[2].data, vec![(42, 1.0f32.to_bits())]);
    assert_eq!(c.margins.bottom, 30);
    assert_eq!(c.time_label_format, "{dd}/{MM} {HH}:{mm}");
}
