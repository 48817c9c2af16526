use zupo::route_search;
use zupo::DirectionsProvider;
use zupo::DistanceModel;
use zupo::Error;
use zupo::LatLngE5;
use zupo::PlaceSearchProvider;
use zupo::RouteRequest;
use zupo::TravelMode;
use zupo::WaypointQuery;

// The reference polyline: three distinct points, so the route has a
// positive total length.
const ENCODED: &str = "_p~iF~ps|U_ulLnnqC_mqNvxq`@";

fn request(query: &str, from: &str, to: &str) -> RouteRequest {
    RouteRequest {
        query: query.to_string(),
        from: from.to_string(),
        to: to.to_string(),
        travel_mode: TravelMode::Drive,
        search_radius_mm: 1_500_000,
        max_waypoints: 5,
        results_per_waypoint: 3,
        language: Some("en".to_string()),
        region: Some("us".to_string()),
    }
}

struct StubDirections {
    calls: usize,
    response: Result<String, Error>,
}

impl DirectionsProvider for StubDirections {
    fn compute_route(
        &mut self,
        _origin: &str,
        _destination: &str,
        _mode: TravelMode,
    ) -> Result<String, Error> {
        self.calls += 1;
        self.response.clone()
    }
}

struct StubSearch {
    calls: usize,
    failing_index: Option<usize>,
    queries: Vec<WaypointQuery>,
}

impl PlaceSearchProvider<String> for StubSearch {
    fn search_near(&mut self, query: &WaypointQuery) -> Result<Vec<String>, Error> {
        let index = self.calls;
        self.calls += 1;
        self.queries.push(query.clone());
        if self.failing_index == Some(index) {
            Err(Error::Http { message: "timed out".to_string() })
        } else {
            Ok(vec![format!("place-{}", index)])
        }
    }
}

struct ManhattanModel;

impl DistanceModel for ManhattanModel {
    fn distance_mm(&self, a: &LatLngE5, b: &LatLngE5) -> u64 {
        ((a.latitude_e5 - b.latitude_e5).unsigned_abs() + (a.longitude_e5 - b.longitude_e5)
            .unsigned_abs()) * 10
    }
}

#[test]
fn one_failing_waypoint_is_isolated() {
    let mut directions = StubDirections { calls: 0, response: Ok(ENCODED.to_string()) };
    let mut search = StubSearch { calls: 0, failing_index: Some(2), queries: Vec::new() };
    let req = request("coffee", "Portland", "Reno");
    let resp = route_search(&req, &mut directions, &mut search, &ManhattanModel).unwrap();
    assert_eq!(directions.calls, 1);
    assert_eq!(search.calls, 5);
    assert_eq!(resp.from, "Portland");
    assert_eq!(resp.to, "Reno");
    assert_eq!(resp.travel_mode, "DRIVE");
    assert_eq!(resp.waypoints.len(), 5);
    for (i, wp) in resp.waypoints.iter().enumerate() {
        assert_eq!(wp.waypoint_index, i);
        if i == 2 {
            assert!(wp.places.is_empty());
        } else {
            assert_eq!(wp.places, vec![format!("place-{}", i)]);
        }
    }
}

#[test]
fn waypoint_queries_carry_the_request_options() {
    let mut directions = StubDirections { calls: 0, response: Ok(ENCODED.to_string()) };
    let mut search = StubSearch { calls: 0, failing_index: None, queries: Vec::new() };
    let req = request("coffee", "Portland", "Reno");
    let resp = route_search(&req, &mut directions, &mut search, &ManhattanModel).unwrap();
    assert_eq!(search.queries.len(), 5);
    for (i, q) in search.queries.iter().enumerate() {
        assert_eq!(q.query, "coffee");
        assert_eq!(q.radius_mm, 1_500_000);
        assert_eq!(q.limit, 3);
        assert_eq!(q.language.as_deref(), Some("en"));
        assert_eq!(q.region.as_deref(), Some("us"));
        assert_eq!(q.center, resp.waypoints[i].waypoint);
    }
}

#[test]
fn empty_query_fails_before_any_provider_call() {
    let mut directions = StubDirections { calls: 0, response: Ok(ENCODED.to_string()) };
    let mut search = StubSearch { calls: 0, failing_index: None, queries: Vec::new() };
    let req = request("", "Portland", "Reno");
    let err = route_search(&req, &mut directions, &mut search, &ManhattanModel).unwrap_err();
    match err {
        Error::Validation { field, message } => {
            assert_eq!(field, "query");
            assert_eq!(message, "query is required");
        }
        other => panic!("expected a validation error, got {:?}", other),
    }
    assert_eq!(directions.calls, 0);
    assert_eq!(search.calls, 0);
}

#[test]
fn empty_from_fails_before_any_provider_call() {
    let mut directions = StubDirections { calls: 0, response: Ok(ENCODED.to_string()) };
    let mut search = StubSearch { calls: 0, failing_index: None, queries: Vec::new() };
    let req = request("coffee", "", "Reno");
    let err = route_search(&req, &mut directions, &mut search, &ManhattanModel).unwrap_err();
    match err {
        Error::Validation { field, message } => {
            assert_eq!(field, "from");
            assert_eq!(message, "origin is required");
        }
        other => panic!("expected a validation error, got {:?}", other),
    }
    assert_eq!(directions.calls, 0);
    assert_eq!(search.calls, 0);
}

#[test]
fn empty_to_fails_before_any_provider_call() {
    let mut directions = StubDirections { calls: 0, response: Ok(ENCODED.to_string()) };
    let mut search = StubSearch { calls: 0, failing_index: None, queries: Vec::new() };
    let req = request("coffee", "Portland", "");
    let err = route_search(&req, &mut directions, &mut search, &ManhattanModel).unwrap_err();
    match err {
        Error::Validation { field, message } => {
            assert_eq!(field, "to");
            assert_eq!(message, "destination is required");
        }
        other => panic!("expected a validation error, got {:?}", other),
    }
    assert_eq!(directions.calls, 0);
    assert_eq!(search.calls, 0);
}

#[test]
fn directions_failure_aborts_without_searches() {
    let mut directions = StubDirections {
        calls: 0,
        response: Err(Error::Api {
            status: 404,
            message: "no route found between origin and destination".to_string(),
        }),
    };
    let mut search = StubSearch { calls: 0, failing_index: None, queries: Vec::new() };
    let req = request("coffee", "Portland", "Reno");
    let err = route_search(&req, &mut directions, &mut search, &ManhattanModel).unwrap_err();
    match err {
        Error::Api { status, message } => {
            assert_eq!(status, 404);
            assert_eq!(message, "no route found between origin and destination");
        }
        other => panic!("expected a provider error, got {:?}", other),
    }
    assert_eq!(directions.calls, 1);
    assert_eq!(search.calls, 0);
}

#[test]
fn empty_polyline_is_a_provider_error() {
    let mut directions = StubDirections { calls: 0, response: Ok(String::new()) };
    let mut search = StubSearch { calls: 0, failing_index: None, queries: Vec::new() };
    let req = request("coffee", "Portland", "Reno");
    let err = route_search(&req, &mut directions, &mut search, &ManhattanModel).unwrap_err();
    match err {
        Error::Api { status, message } => {
            assert_eq!(status, 0);
            assert_eq!(message, "route returned no path points");
        }
        other => panic!("expected a provider error, got {:?}", other),
    }
    assert_eq!(search.calls, 0);
}

#[test]
fn all_waypoint_failures_still_return_full_outcome() {
    let mut directions = StubDirections { calls: 0, response: Ok(ENCODED.to_string()) };
    struct AlwaysFails {
        calls: usize,
    }
    impl PlaceSearchProvider<String> for AlwaysFails {
        fn search_near(&mut self, _query: &WaypointQuery) -> Result<Vec<String>, Error> {
            self.calls += 1;
            Err(Error::Http { message: "down".to_string() })
        }
    }
    let mut search = AlwaysFails { calls: 0 };
    let req = request("coffee", "Portland", "Reno");
    let resp = route_search(&req, &mut directions, &mut search, &ManhattanModel).unwrap();
    assert_eq!(search.calls, 5);
    assert_eq!(resp.waypoints.len(), 5);
    for (i, wp) in resp.waypoints.iter().enumerate() {
        assert_eq!(wp.waypoint_index, i);
        assert!(wp.places.is_empty());
    }
}

#[test]
fn zero_waypoint_count_searches_every_path_point() {
    // With a waypoint count of zero the sampler hands back the decoded
    // path unchanged, so every path point gets a search.
    let mut directions = StubDirections { calls: 0, response: Ok(ENCODED.to_string()) };
    let mut search = StubSearch { calls: 0, failing_index: None, queries: Vec::new() };
    let mut req = request("coffee", "Portland", "Reno");
    req.max_waypoints = 0;
    let resp = route_search(&req, &mut directions, &mut search, &ManhattanModel).unwrap();
    assert_eq!(resp.waypoints.len(), 3);
    assert_eq!(search.calls, 3);
}

#[test]
fn validate_accepts_a_full_request() {
    let req = request("coffee", "Portland", "Reno");
    assert!(req.validate().is_ok());
}

#[test]
fn waypoint_query_copies_the_request_fields() {
    let req = request("tacos", "A", "B");
    let center = LatLngE5 { latitude_e5: 100, longitude_e5: -200 };
    let q = zupo::waypoint_query(&req, center);
    assert_eq!(q.query, "tacos");
    assert_eq!(q.center, center);
    assert_eq!(q.radius_mm, 1_500_000);
    assert_eq!(q.limit, 3);
    assert_eq!(q.language.as_deref(), Some("en"));
    assert_eq!(q.region.as_deref(), Some("us"));
}

#[test]
fn collect_waypoint_result_swallows_errors() {
    let wp = LatLngE5 { latitude_e5: 1, longitude_e5: 2 };
    let ok: Result<Vec<String>, Error> = Ok(vec!["a".to_string(), "b".to_string()]);
    let rec = zupo::collect_waypoint_result(wp, 7, ok);
    assert_eq!(rec.waypoint_index, 7);
    assert_eq!(rec.places, vec!["a".to_string(), "b".to_string()]);
    let failed: Result<Vec<String>, Error> = Err(Error::MissingApiKey);
    let rec = zupo::collect_waypoint_result(wp, 8, failed);
    assert_eq!(rec.waypoint_index, 8);
    assert!(rec.places.is_empty());
}

#[test]
fn segment_distances_clamps_absurd_measurements() {
    struct BrokenModel;
    impl DistanceModel for BrokenModel {
        fn distance_mm(&self, _a: &LatLngE5, _b: &LatLngE5) -> u64 {
            u64::MAX
        }
    }
    let points = vec![
        LatLngE5 { latitude_e5: 0, longitude_e5: 0 },
        LatLngE5 { latitude_e5: 1, longitude_e5: 1 },
    ];
    let dists = zupo::segment_distances(&BrokenModel, &points);
    assert_eq!(dists, vec![zupo::MAX_SEGMENT_MM]);
}

#[test]
fn route_path_from_polyline_decodes_or_rejects() {
    let path = zupo::route_path_from_polyline(ENCODED).unwrap();
    assert_eq!(path.len(), 3);
    let err = zupo::route_path_from_polyline("").unwrap_err();
    match err {
        Error::Api { status, message } => {
            assert_eq!(status, 0);
            assert_eq!(message, "route returned no path points");
        }
        other => panic!("expected a provider error, got {:?}", other),
    }
}

#[test]
fn provider_shaped_validation_errors_are_normalised() {
    // A misbehaving directions provider handing back a validation-shaped
    // error must not surface as one: validation errors belong to request
    // checking alone.
    let mut directions = StubDirections {
        calls: 0,
        response: Err(Error::Validation {
            field: "bogus".to_string(),
            message: "not really validation".to_string(),
        }),
    };
    let mut search = StubSearch { calls: 0, failing_index: None, queries: Vec::new() };
    let req = request("coffee", "Portland", "Reno");
    let err = route_search(&req, &mut directions, &mut search, &ManhattanModel).unwrap_err();
    match err {
        Error::Api { status, message } => {
            assert_eq!(status, 0);
            assert_eq!(message, "not really validation");
        }
        other => panic!("expected a provider error, got {:?}", other),
    }
    assert_eq!(search.calls, 0);
}

#[test]
fn as_provider_error_passes_provider_shapes_through() {
    let e = zupo::as_provider_error(Error::Api { status: 503, message: "down".to_string() });
    match e {
        Error::Api { status, message } => {
            assert_eq!(status, 503);
            assert_eq!(message, "down");
        }
        other => panic!("expected the error unchanged, got {:?}", other),
    }
    let e = zupo::as_provider_error(Error::Http { message: "reset".to_string() });
    assert!(matches!(e, Error::Http { .. }));
    let e = zupo::as_provider_error(Error::Validation {
        field: "x".to_string(),
        message: "m".to_string(),
    });
    match e {
        Error::Api { status, message } => {
            assert_eq!(status, 0);
            assert_eq!(message, "m");
        }
        other => panic!("expected a demoted provider error, got {:?}", other),
    }
}

#[test]
fn route_polyline_result_decides_the_no_route_case() {
    let ok = zupo::route_polyline_result(Some(ENCODED.to_string())).unwrap();
    assert_eq!(ok, ENCODED);
    let err = zupo::route_polyline_result(None).unwrap_err();
    match err {
        Error::Api { status, message } => {
            assert_eq!(status, 0);
            assert_eq!(message, "no route found between origin and destination");
        }
        other => panic!("expected the no-route error, got {:?}", other),
    }
}

#[test]
fn route_points_from_directions_covers_all_cases() {
    let pts = zupo::route_points_from_directions(Ok(ENCODED.to_string())).unwrap();
    assert_eq!(pts.len(), 3);
    let err = zupo::route_points_from_directions(Ok(String::new())).unwrap_err();
    match err {
        Error::Api { status, message } => {
            assert_eq!(status, 0);
            assert_eq!(message, "route returned no path points");
        }
        other => panic!("expected the empty-path error, got {:?}", other),
    }
    let err = zupo::route_points_from_directions(Err(Error::Api {
        status: 404,
        message: "gone".to_string(),
    }))
    .unwrap_err();
    match err {
        Error::Api { status, message } => {
            assert_eq!(status, 404);
            assert_eq!(message, "gone");
        }
        other => panic!("expected the provider error unchanged, got {:?}", other),
    }
}
