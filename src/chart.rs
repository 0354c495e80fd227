//! Projection of power readings into a line-chart document with a time
//! axis, a power axis and a battery-charge axis.
use vstd::prelude::*;

use crate::error::ProjectionError;

verus! {

/// One sample of the inverter. Each quantity is an IEEE-754 single-precision
/// value held as its bit pattern: the projection routes values, it never
/// computes with them.
#[derive(Debug, Clone, Copy, PartialEq, Eq, Structural)]
pub struct PowerReading {
    pub solar: u32,
    pub grid: u32,
    pub battery: u32,
    pub battery_percent: u32,
    pub consumption: u32,
}

/// A reading and the ISO-8601 timestamp at which it was taken.
#[derive(Debug)]
pub struct DataPoint {
    pub time: String,
    pub power: PowerReading,
}

/// The quantity that a series plots.
#[derive(Debug, Clone, Copy, PartialEq, Eq, Structural)]
pub enum Quantity {
    Consumption,
    Battery,
    Solar,
    Grid,
    BatteryPercent,
}

/// How a series' line is drawn.
#[derive(Debug)]
pub enum LineStyle {
    Solid,
    Dotted,
    Dashed,
    /// Alternating lengths of dash and gap.
    Pattern(Vec<u32>),
}

/// One line of the chart: its points are `(instant in ms, value bits)`.
#[derive(Debug)]
pub struct Series {
    pub name: String,
    pub quantity: Quantity,
    /// The value axis used, when it is not the first one.
    pub y_axis_index: Option<u32>,
    pub line_style: LineStyle,
    pub data: Vec<(i64, u32)>,
}

/// A value axis, with whether its split lines are drawn.
#[derive(Debug)]
pub struct ValueAxis {
    pub name: String,
    pub split_line: bool,
}

/// Space left around the plot area, in pixels.
#[derive(Debug, Clone, Copy, PartialEq, Eq, Structural)]
pub struct Margins {
    pub bottom: u32,
    pub left: u32,
    pub right: u32,
}

/// The chart document: a time axis, two value axes, a legend and the series.
#[derive(Debug)]
pub struct ChartConfig {
    pub legend: Vec<String>,
    pub margins: Margins,
    pub time_label_format: String,
    pub y_axes: Vec<ValueAxis>,
    pub series: Vec<Series>,
}

/// The instant, in milliseconds since the Unix epoch, that a timestamp
/// denotes, or `None` where it does not parse.
pub uninterp spec fn utc_millis_of(text: Seq<char>) -> Option<i64>;

/// Relies on chrono's `FromStr` for `DateTime<Utc>` (relaxed RFC 3339) and
/// on `DateTime::timestamp_millis`: the result depends on the text alone.
#[verifier::external_body]
fn parse_utc_millis(text: &str) -> (r: Option<i64>)
    ensures
        r == utc_millis_of(text@),
{
    text.parse::<chrono::DateTime<chrono::Utc>>().ok().map(|t| t.timestamp_millis())
}

impl PowerReading {
    pub open spec fn spec_value(self, q: Quantity) -> u32 {
        match q {
            Quantity::Consumption => self.consumption,
            Quantity::Battery => self.battery,
            Quantity::Solar => self.solar,
            Quantity::Grid => self.grid,
            Quantity::BatteryPercent => self.battery_percent,
        }
    }

    /// The bits of the given quantity.
    pub fn value(&self, q: Quantity) -> (r: u32)
        ensures
            r == self.spec_value(q),
    {
        match q {
            Quantity::Consumption => self.consumption,
            Quantity::Battery => self.battery,
            Quantity::Solar => self.solar,
            Quantity::Grid => self.grid,
            Quantity::BatteryPercent => self.battery_percent,
        }
    }
}

/// The quantities of the chart, in the order of its series and legend.
pub open spec fn chart_quantities() -> Seq<Quantity> {
    seq![
        Quantity::Consumption,
        Quantity::Battery,
        Quantity::Solar,
        Quantity::Grid,
        Quantity::BatteryPercent,
    ]
}

/// The name under which a quantity's series is shown.
pub open spec fn quantity_name(q: Quantity) -> Seq<char> {
    match q {
        Quantity::Consumption => "Consumption"@,
        Quantity::Battery => "Battery"@,
        Quantity::Solar => "Solar"@,
        Quantity::Grid => "Grid"@,
        Quantity::BatteryPercent => "Battery %"@,
    }
}

/// The value axis of a quantity: the second for the battery charge, the
/// first (no reference) for every power.
pub open spec fn quantity_axis(q: Quantity) -> Option<u32> {
    if q == Quantity::BatteryPercent {
        Some(1u32)
    } else {
        None
    }
}

/// The points of a quantity's series: the k-th instant with the k-th value.
pub open spec fn series_points(instants: Seq<i64>, points: Seq<DataPoint>, q: Quantity) -> Seq<
    (i64, u32),
> {
    Seq::new(points.len(), |k: int| (instants[k], points[k].power.spec_value(q)))
}

/// The instants of the points, where every timestamp parses.
pub open spec fn parsed_instants(points: Seq<DataPoint>) -> Seq<i64> {
    Seq::new(
        points.len(),
        |k: int|
            match utc_millis_of(points[k].time@) {
                Some(t) => t,
                None => 0i64,
            },
    )
}

/// Every timestamp of the points parses.
pub open spec fn all_parse(points: Seq<DataPoint>) -> bool {
    forall|k: int| 0 <= k < points.len() ==> (#[trigger] utc_millis_of(points[k].time@)) is Some
}

/// `c` is the chart of `points` placed at `instants`.
pub open spec fn is_chart_of(c: ChartConfig, instants: Seq<i64>, points: Seq<DataPoint>) -> bool {
    &&& c.legend@.len() == 5
    &&& forall|i: int| 0 <= i < 5 ==> #[trigger] c.legend@[i]@ == quantity_name(chart_quantities()[i])
    &&& c.y_axes@.len() == 2
    &&& c.y_axes@[0].name@ == "Power (W)"@ && c.y_axes@[0].split_line
    &&& c.y_axes@[1].name@ == "Battery %"@ && !c.y_axes@[1].split_line
    &&& c.series@.len() == 5
    &&& forall|i: int|
        0 <= i < 5 ==> {
            let s = #[trigger] c.series@[i];
            let q = chart_quantities()[i];
            &&& s.quantity == q
            &&& s.name@ == quantity_name(q)
            &&& s.y_axis_index == quantity_axis(q)
            &&& s.data@ == series_points(instants, points, q)
        }
}

/// The instant of each point's timestamp, in order; or the first timestamp
/// that does not parse, with its position.
pub fn parse_instants(points: &Vec<DataPoint>) -> (r: Result<Vec<i64>, ProjectionError>)
    ensures
        r is Ok <==> all_parse(points@),
        r matches Ok(v) ==> v@ == parsed_instants(points@),
        r matches Err(ProjectionError::UnparsableTimestamp { raw, index }) ==> {
            &&& index < points@.len()
            &&& raw@ == points@[index as int].time@
            &&& utc_millis_of(points@[index as int].time@) is None
            &&& forall|j: int| 0 <= j < index ==> (#[trigger] utc_millis_of(points@[j].time@)) is Some
        },
{
    let mut out: Vec<i64> = Vec::new();
    let mut k: usize = 0;
    while k < points.len()
        invariant
            k <= points@.len(),
            out@ == parsed_instants(points@).take(k as int),
            forall|j: int| 0 <= j < k ==> (#[trigger] utc_millis_of(points@[j].time@)) is Some,
        decreases points@.len() - k,
    {
        match parse_utc_millis(points[k].time.as_str()) {
            Some(t) => {
                out.push(t);
            },
            None => {
                return Err(
                    ProjectionError::UnparsableTimestamp { raw: points[k].time.clone(), index: k },
                );
            },
        }
        k = k + 1;
        assert(out@ =~= parsed_instants(points@).take(k as int));
    }
    assert(out@ =~= parsed_instants(points@));
    Ok(out)
}

/// The points of one series: each instant paired with the quantity's value.
pub fn series_data(instants: &Vec<i64>, points: &Vec<DataPoint>, q: Quantity) -> (r: Vec<(i64, u32)>)
    requires
        instants@.len() == points@.len(),
    ensures
        r@ == series_points(instants@, points@, q),
{
    let mut out: Vec<(i64, u32)> = Vec::new();
    let mut k: usize = 0;
    while k < points.len()
        invariant
            k <= points@.len(),
            instants@.len() == points@.len(),
            out@ == series_points(instants@, points@, q).take(k as int),
        decreases points@.len() - k,
    {
        out.push((instants[k], points[k].power.value(q)));
        k = k + 1;
        assert(out@ =~= series_points(instants@, points@, q).take(k as int));
    }
    assert(out@ =~= series_points(instants@, points@, q));
    out
}

fn make_series(
    instants: &Vec<i64>,
    points: &Vec<DataPoint>,
    q: Quantity,
    line_style: LineStyle,
) -> (r: Series)
    requires
        instants@.len() == points@.len(),
    ensures
        r.quantity == q,
        r.name@ == quantity_name(q),
        r.y_axis_index == quantity_axis(q),
        r.data@ == series_points(instants@, points@, q),
{
    let name = match q {
        Quantity::Consumption => "Consumption".to_owned(),
        Quantity::Battery => "Battery".to_owned(),
        Quantity::Solar => "Solar".to_owned(),
        Quantity::Grid => "Grid".to_owned(),
        Quantity::BatteryPercent => "Battery %".to_owned(),
    };
    let y_axis_index = match q {
        Quantity::BatteryPercent => Some(1u32),
        _ => None,
    };
    Series { name, quantity: q, y_axis_index, line_style, data: series_data(instants, points, q) }
}

/// The chart of the points placed at the given instants.
pub fn build_chart(instants: &Vec<i64>, points: &Vec<DataPoint>) -> (r: ChartConfig)
    requires
        instants@.len() == points@.len(),
    ensures
        is_chart_of(r, instants@, points@),
{
    let mut legend: Vec<String> = Vec::new();
    legend.push("Consumption".to_owned());
    legend.push("Battery".to_owned());
    legend.push("Solar".to_owned());
    legend.push("Grid".to_owned());
    legend.push("Battery %".to_owned());

    let mut y_axes: Vec<ValueAxis> = Vec::new();
    y_axes.push(ValueAxis { name: "Power (W)".to_owned(), split_line: true });
    y_axes.push(ValueAxis { name: "Battery %".to_owned(), split_line: false });

    let mut series: Vec<Series> = Vec::new();
    series.push(make_series(instants, points, Quantity::Consumption, LineStyle::Solid));
    series.push(make_series(instants, points, Quantity::Battery, LineStyle::Dotted));
    series.push(make_series(instants, points, Quantity::Solar, LineStyle::Pattern(vec![8, 4, 2, 4])));
    series.push(make_series(instants, points, Quantity::Grid, LineStyle::Dashed));
    series.push(
        make_series(instants, points, Quantity::BatteryPercent, LineStyle::Pattern(vec![8, 4, 4, 4])),
    );

    let r = ChartConfig {
        legend,
        margins: Margins { bottom: 30, left: 70, right: 50 },
        time_label_format: "{dd}/{MM} {HH}:{mm}".to_owned(),
        y_axes,
        series,
    };
    assert forall|i: int| 0 <= i < 5 implies #[trigger] r.legend@[i]@ == quantity_name(chart_quantities()[i]) by {
        if i == 0 {} else if i == 1 {} else if i == 2 {} else if i == 3 {} else {}
    }
    assert forall|i: int| 0 <= i < 5 implies ({
        let s = #[trigger] r.series@[i];
        let q = chart_quantities()[i];
        &&& s.quantity == q
        &&& s.name@ == quantity_name(q)
        &&& s.y_axis_index == quantity_axis(q)
        &&& s.data@ == series_points(instants@, points@, q)
    }) by {
        if i == 0 {} else if i == 1 {} else if i == 2 {} else if i == 3 {} else {}
    }
    r
}

/// The chart of the points, each placed at the instant of its timestamp;
/// or the first timestamp that does not parse.
///
/// Every series has one point per reading, in the order of the readings, and
/// its k-th point lies at the k-th reading's instant. The battery charge is
/// the one series drawn against the second value axis.
pub fn project(points: &Vec<DataPoint>) -> (r: Result<ChartConfig, ProjectionError>)
    ensures
        r is Ok <==> all_parse(points@),
        r matches Ok(c) ==> is_chart_of(c, parsed_instants(points@), points@),
        r matches Ok(c) ==> forall|i: int, k: int|
            0 <= i < 5 && 0 <= k < points@.len() ==> {
                &&& (#[trigger] c.series@[i]).data@.len() == points@.len()
                &&& Some(c.series@[i].data@[k].0) == utc_millis_of(#[trigger] points@[k].time@)
            },
        r matches Ok(c) ==> forall|i: int|
            0 <= i < 5 ==> ((#[trigger] c.series@[i]).y_axis_index is Some <==> c.series@[i].name@
                == "Battery %"@),
        r matches Err(ProjectionError::UnparsableTimestamp { raw, index }) ==> {
            &&& index < points@.len()
            &&& raw@ == points@[index as int].time@
            &&& utc_millis_of(points@[index as int].time@) is None
            &&& forall|j: int| 0 <= j < index ==> (#[trigger] utc_millis_of(points@[j].time@)) is Some
        },
{
    match parse_instants(points) {
        Ok(instants) => {
            let c = build_chart(&instants, points);
            assert forall|i: int, k: int|
                0 <= i < 5 && 0 <= k < points@.len() implies {
                &&& (#[trigger] c.series@[i]).data@.len() == points@.len()
                &&& Some(c.series@[i].data@[k].0) == utc_millis_of(#[trigger] points@[k].time@)
            } by {
                assert(c.series@[i].data@ == series_points(instants@, points@, chart_quantities()[i]));
                assert(utc_millis_of(points@[k].time@) is Some);
            }
            assert forall|i: int| 0 <= i < 5 implies ((#[trigger] c.series@[i]).y_axis_index is Some
                <==> c.series@[i].name@ == "Battery %"@) by {
                reveal_strlit("Consumption");
                reveal_strlit("Battery");
                reveal_strlit("Solar");
                reveal_strlit("Grid");
                reveal_strlit("Battery %");
                let name = c.series@[i].name@;
                if i < 4 {
                    assert(name.len() != "Battery %"@.len());
                }
            }
            Ok(c)
        },
        Err(e) => Err(e),
    }
}

} // verus!
