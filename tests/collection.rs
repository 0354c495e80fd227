use givenergy_chart::chart::{DataPoint, PowerReading};
use givenergy_chart::config::RequestParameters;
use givenergy_chart::dates::yesterday_and_today;
use givenergy_chart::error::{ComponentError, FetchError, RequestFailure};
use givenergy_chart::fetch::{first_page_url, Fetcher, Page};

fn point(time: &str, solar: f32) -> DataPoint {
    DataPoint {
        time: time.to_string(),
        power: PowerReading {
            solar: solar.to_bits(),
            grid: 0f32.to_bits(),
            battery: 0f32.to_bits(),
            battery_percent: 50f32.to_bits(),
            consumption: 0f32.to_bits(),
        },
    }
}

fn params() -> RequestParameters {
    RequestParameters { api_token: "tok".to_string(), inverter_id: "123".to_string() }
}

fn times(points: &[DataPoint]) -> Vec<String> {
    points.iter().map(|p| p.time.clone()).collect()
}

#[test]
fn first_page_address() {
    assert_eq!(
        first_page_url("123", "2024-01-01"),
        "https://api.givenergy.cloud/v1/inverter/123/data-points/2024-01-01?page=1"
    );
}

#[test]
fn cursor_is_followed_until_absent() {
    let mut f = Fetcher::new(&params(), vec!["2024-01-01".to_string()], 100);
    let mut calls = vec![];
    let mut pages = vec![
        Page {
            data: vec![point("a", 1.0), point("b", 2.0)],
            next: Some("p2".to_string()),
        },
        Page { data: vec![point("c", 3.0)], next: None },
    ]
    .into_iter();
    while let Some(url) = f.next_request().unwrap() {
        calls.push(url);
        f.absorb_page(pages.next().unwrap());
    }
    assert_eq!(
        calls,
        vec![
            "https://api.givenergy.cloud/v1/inverter/123/data-points/2024-01-01?page=1".to_string(),
            "p2".to_string(),
        ]
    );
    assert!(f.is_finished());
    assert_eq!(times(&f.into_points()), vec!["a", "b", "c"]);
}

#[test]
fn days_are_kept_in_given_order() {
    let dates = vec!["2024-01-01".to_string(), "2024-01-02".to_string()];
    let mut f = Fetcher::new(&params(), dates, 100);
    let mut calls = vec![];
    let mut pages = vec![
        Page { data: vec![point("x", 9.0)], next: None },
        Page { data: vec![point("y", 1.0)], next: None },
    ]
    .into_iter();
    while let Some(url) = f.next_request().unwrap() {
        calls.push(url);
        f.absorb_page(pages.next().unwrap());
    }
    assert_eq!(calls.len(), 2);
    assert!(calls[1].ends_with("/data-points/2024-01-02?page=1"));
    assert_eq!(times(&f.into_points()), vec!["x", "y"]);
}

#[test]
fn no_days_means_no_request() {
    let f = Fetcher::new(&params(), vec![], 10);
    assert!(f.is_finished());
    assert!(matches!(f.next_request(), Ok(None)));
    assert!(f.into_points().is_empty());
}

#[test]
fn page_limit_stops_collection() {
    let mut f = Fetcher::new(&params(), vec!["2024-01-01".to_string()], 1);
    assert!(f.next_request().unwrap().is_some());
    f.absorb_page(Page { data: vec![point("a", 1.0)], next: Some("p2".to_string()) });
    assert!(matches!(f.next_request(), Err(FetchError::TooManyPages { limit: 1 })));
    let e = FetchError::TooManyPages { limit: 1 }.into_component_error();
    assert_eq!(e.message, "Too many pages of data points.");
}

#[test]
fn request_failure_keeps_response_body() {
    let failure = RequestFailure {
        message: "Request failed".to_string(),
        inner: vec!["status 500".to_string()],
        response_body: Some("oops".to_string()),
    };
    let e = FetchError::Request(failure).into_component_error();
    assert_eq!(e.message, "Request failed");
    assert_eq!(e.inner, vec!["status 500".to_string(), "oops".to_string()]);
}

#[test]
fn request_failure_without_response() {
    let failure = RequestFailure {
        message: "Timed out".to_string(),
        inner: vec![],
        response_body: None,
    };
    let e = ComponentError::from_request_failure(failure);
    assert_eq!(e.message, "Timed out");
    assert!(e.inner.is_empty());
}

#[test]
fn malformed_page_is_reported() {
    let e = FetchError::MalformedResponse { detail: "expected value".to_string() }
        .into_component_error();
    assert_eq!(e.message, "Failed to deserialize response.");
    assert_eq!(e.inner, vec!["expected value".to_string()]);
}

#[test]
fn component_error_constructors() {
    let e = ComponentError::new("boom");
    assert_eq!(e.message, "boom");
    assert!(e.inner.is_empty());
    let e = ComponentError::for_error("Failed to deserialize input.", "bad json");
    assert_eq!(e.message, "Failed to deserialize input.");
    assert_eq!(e.inner, vec!["bad json".to_string()]);
}

#[test]
fn yesterday_then_today() {
    // 2024-01-02 is day 738887 counted from 0001-01-01 as day 1.
    let v = yesterday_and_today(738887).unwrap();
    assert_eq!(v, vec!["2024-01-01".to_string(), "2024-01-02".to_string()]);
}

#[test]
fn date_range_across_year_end() {
    let v = yesterday_and_today(738886).unwrap();
    assert_eq!(v, vec!["2023-12-31".to_string(), "2024-01-01".to_string()]);
}

#[test]
fn date_range_outside_calendar() {
    assert!(yesterday_and_today(i32::MIN).is_none());
    assert!(yesterday_and_today(i32::MAX).is_none());
}
