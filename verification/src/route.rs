use vstd::prelude::*;
use vstd::string::StringExecFns;
use vstd::string::StringSliceAdditionalSpecFns;

use vstd::utf8::encode_utf8;

use crate::errors::Error;
use crate::errors::as_provider_error;
use crate::errors::is_api_error;
use crate::errors::is_validation_error;
use crate::errors::normalized_provider_error;
use crate::polyline::decode_polyline;
use crate::polyline::decode_spec;
use crate::sampler::MAX_SEGMENTS;
use crate::sampler::MAX_SEGMENT_MM;
use crate::sampler::sample_waypoints;
use crate::types::LatLngE5;
use crate::types::TravelMode;
use crate::types::travel_mode_api_str;

verus! {

// The route-discovery pipeline: validate the request, obtain an encoded
// path from the directions provider, decode it, resample it into evenly
// spaced waypoints, and run one place search per waypoint. A failure
// before the waypoints exist is fatal; a failure of one waypoint's
// search is recorded as an empty result and never stops the others.

/// A route-based place-discovery request. Distances are integer
/// millimetres and the search radius rides along to each per-waypoint
/// search unchanged.
#[derive(Debug, Clone)]
pub struct RouteRequest {
    pub query: String,
    pub from: String,
    pub to: String,
    pub travel_mode: TravelMode,
    pub search_radius_mm: u64,
    pub max_waypoints: u32,
    pub results_per_waypoint: u32,
    pub language: Option<String>,
    pub region: Option<String>,
}

/// One place search scoped to a circular bias region around a waypoint.
#[derive(Debug, Clone)]
pub struct WaypointQuery {
    pub query: String,
    pub center: LatLngE5,
    pub radius_mm: u64,
    pub limit: u32,
    pub language: Option<String>,
    pub region: Option<String>,
}

/// The places found around one waypoint. An empty list stands both for
/// "nothing found" and for a search that failed there.
#[derive(Debug, Clone)]
pub struct RouteWaypointResult<P> {
    pub waypoint: LatLngE5,
    pub waypoint_index: usize,
    pub places: Vec<P>,
}

/// The outcome of a whole route search, with one entry per waypoint in
/// waypoint order.
#[derive(Debug, Clone)]
pub struct RouteSearchResponse<P> {
    pub from: String,
    pub to: String,
    pub travel_mode: String,
    pub waypoints: Vec<RouteWaypointResult<P>>,
}

/// Computes an encoded route path between two named locations; the
/// caller learns nothing of the result beyond its type.
pub trait DirectionsProvider {
    fn compute_route(&mut self, origin: &str, destination: &str, mode: TravelMode) -> Result<
        String,
        Error,
    >;
}

/// Searches for places around one waypoint; each call is an independent
/// failure domain.
pub trait PlaceSearchProvider<P> {
    fn search_near(&mut self, query: &WaypointQuery) -> Result<Vec<P>, Error>;
}

/// Measures the ground distance of one path segment in millimetres.
/// An implementation is expected to report zero for a point paired with
/// itself and the same distance whichever way round the points come;
/// nothing in the library depends on more than that the result is a
/// number.
pub trait DistanceModel {
    fn distance_mm(&self, a: &LatLngE5, b: &LatLngE5) -> u64;
}

impl RouteRequest {
    /// A request is valid when its query and both route endpoints are
    /// nonempty.
    pub open spec fn valid(self) -> bool {
        self.query@.len() > 0 && self.from@.len() > 0 && self.to@.len() > 0
    }

    /// Rejects a request with an empty `query`, `from` or `to`, in that
    /// order of priority, and accepts every other request.
    pub fn validate(&self) -> (r: Result<(), Error>)
        ensures
            r is Ok <==> self.valid(),
            self.query@.len() == 0 ==> (r matches Err(e) && is_validation_error(
                e,
                "query"@,
                "query is required"@,
            )),
            self.query@.len() > 0 && self.from@.len() == 0 ==> (r matches Err(e)
                && is_validation_error(e, "from"@, "origin is required"@)),
            self.query@.len() > 0 && self.from@.len() > 0 && self.to@.len() == 0 ==> (r matches Err(
                e,
            ) && is_validation_error(e, "to"@, "destination is required"@)),
    {
        if self.query.as_str().is_empty() {
            return Err(
                Error::Validation {
                    field: String::from_str("query"),
                    message: String::from_str("query is required"),
                },
            );
        }
        if self.from.as_str().is_empty() {
            return Err(
                Error::Validation {
                    field: String::from_str("from"),
                    message: String::from_str("origin is required"),
                },
            );
        }
        if self.to.as_str().is_empty() {
            return Err(
                Error::Validation {
                    field: String::from_str("to"),
                    message: String::from_str("destination is required"),
                },
            );
        }
        Ok(())
    }
}

/// Decodes a provider's encoded path and demands a usable one: a route
/// that decodes to nothing leaves no centre to search around, and one of
/// more than `MAX_SEGMENTS + 1` points is beyond what sampling supports
/// (no provider route comes near that bound).
pub fn route_path_from_polyline(encoded: &str) -> (r: Result<Vec<LatLngE5>, Error>)
    ensures
        ({
            let pts = decode_spec(encoded.spec_bytes());
            &&& pts.len() == 0 ==> (r matches Err(e) && is_api_error(
                e,
                0,
                "route returned no path points"@,
            ))
            &&& pts.len() > MAX_SEGMENTS + 1 ==> (r matches Err(e) && is_api_error(
                e,
                0,
                "route path exceeds supported length"@,
            ))
            &&& 1 <= pts.len() <= MAX_SEGMENTS + 1 ==> (r matches Ok(v) && v@ == pts)
        }),
{
    let points = decode_polyline(encoded);
    if points.len() == 0 {
        Err(
            Error::Api {
                status: 0,
                message: String::from_str("route returned no path points"),
            },
        )
    } else if points.len() > MAX_SEGMENTS + 1 {
        Err(
            Error::Api {
                status: 0,
                message: String::from_str("route path exceeds supported length"),
            },
        )
    } else {
        Ok(points)
    }
}

/// The decision on a directions lookup: the route's encoded path when
/// one was found, and the no-route provider error when none was.
pub fn route_polyline_result(found: Option<String>) -> (r: Result<String, Error>)
    ensures
        found matches Some(p) ==> (r matches Ok(q) && q == p),
        found is None ==> (r matches Err(e) && is_api_error(
            e,
            0,
            "no route found between origin and destination"@,
        )),
{
    match found {
        Some(p) => Ok(p),
        None => Err(
            Error::Api {
                status: 0,
                message: String::from_str("no route found between origin and destination"),
            },
        ),
    }
}

/// The whole route-compute step, from whatever the directions provider
/// returned: a provider failure is fatal and surfaces as a provider
/// error, never as a validation error; a returned route must decode to
/// at least one point of a supported count, exactly as
/// `route_path_from_polyline` says.
pub fn route_points_from_directions(route_result: Result<String, Error>) -> (r: Result<
    Vec<LatLngE5>,
    Error,
>)
    ensures
        route_result matches Err(e) ==> (r matches Err(e2) && normalized_provider_error(e, e2)),
        route_result matches Ok(s) ==> ({
            let pts = decode_spec(encode_utf8(s@));
            &&& pts.len() == 0 ==> (r matches Err(e) && is_api_error(
                e,
                0,
                "route returned no path points"@,
            ))
            &&& pts.len() > MAX_SEGMENTS + 1 ==> (r matches Err(e) && is_api_error(
                e,
                0,
                "route path exceeds supported length"@,
            ))
            &&& 1 <= pts.len() <= MAX_SEGMENTS + 1 ==> (r matches Ok(v) && v@ == pts)
        }),
        r matches Ok(pts) ==> 1 <= pts@.len() <= MAX_SEGMENTS + 1,
        r matches Err(e2) ==> !(e2 matches Error::Validation { .. }),
{
    match route_result {
        Err(e) => Err(as_provider_error(e)),
        Ok(encoded) => route_path_from_polyline(encoded.as_str()),
    }
}

/// Copies an optional string.
fn clone_opt_string(o: &Option<String>) -> (r: Option<String>)
    ensures
        r == *o,
{
    match o {
        Some(s) => Some(s.clone()),
        None => None,
    }
}

/// Builds the place search for one waypoint: the route's query text and
/// pass-through options, scoped to the bias circle around the waypoint.
pub fn waypoint_query(req: &RouteRequest, center: LatLngE5) -> (q: WaypointQuery)
    ensures
        q.query == req.query,
        q.center == center,
        q.radius_mm == req.search_radius_mm,
        q.limit == req.results_per_waypoint,
        q.language == req.language,
        q.region == req.region,
{
    WaypointQuery {
        query: req.query.clone(),
        center,
        radius_mm: req.search_radius_mm,
        limit: req.results_per_waypoint,
        language: clone_opt_string(&req.language),
        region: clone_opt_string(&req.region),
    }
}

/// Turns one waypoint's search outcome into its result entry: a failed
/// search is recorded as an empty place list, never as an error.
pub fn collect_waypoint_result<P>(
    waypoint: LatLngE5,
    index: usize,
    outcome: Result<Vec<P>, Error>,
) -> (r: RouteWaypointResult<P>)
    ensures
        r.waypoint == waypoint,
        r.waypoint_index == index,
        outcome matches Ok(places) ==> r.places == places,
        outcome matches Err(_) ==> r.places@ == Seq::<P>::empty(),
{
    match outcome {
        Ok(places) => RouteWaypointResult { waypoint, waypoint_index: index, places },
        Err(_) => RouteWaypointResult { waypoint, waypoint_index: index, places: Vec::new() },
    }
}

/// Wraps the per-waypoint results with the route's labels, in the order
/// they stand.
pub fn assemble_route_response<P>(req: &RouteRequest, results: Vec<RouteWaypointResult<P>>) -> (resp:
    RouteSearchResponse<P>)
    ensures
        resp.from == req.from,
        resp.to == req.to,
        resp.travel_mode@ == travel_mode_api_str(req.travel_mode),
        resp.waypoints == results,
{
    RouteSearchResponse {
        from: req.from.clone(),
        to: req.to.clone(),
        travel_mode: req.travel_mode.as_api_str().to_owned(),
        waypoints: results,
    }
}

/// Measures every consecutive segment of a path. A distance beyond half
/// the Earth's circumference is no honest ground distance; it is clamped
/// so that cumulative distances stay well inside 64 bits.
pub fn segment_distances<M: DistanceModel>(model: &M, points: &Vec<LatLngE5>) -> (dists: Vec<u64>)
    requires
        points@.len() >= 1,
    ensures
        dists@.len() == points@.len() - 1,
        forall|j: int| 0 <= j < dists@.len() ==> dists@[j] <= MAX_SEGMENT_MM,
{
    let mut dists: Vec<u64> = Vec::new();
    let mut j: usize = 1;
    while j < points.len()
        invariant
            1 <= j <= points@.len(),
            dists@.len() == j - 1,
            forall|q: int| 0 <= q < dists@.len() ==> dists@[q] <= MAX_SEGMENT_MM,
        decreases points@.len() - j,
    {
        let d: u64 = model.distance_mm(&points[j - 1], &points[j]);
        let d: u64 = if d > MAX_SEGMENT_MM {
            MAX_SEGMENT_MM
        } else {
            d
        };
        dists.push(d);
        j = j + 1;
    }
    dists
}

/// Runs a whole route-based place discovery: validation, route compute,
/// decode, waypoint sampling, and one place search per waypoint.
///
/// Validation and route-compute failures abort the pipeline with the
/// error; so does a decoded path of more than `MAX_SEGMENTS + 1` points,
/// which no provider route reaches. A validation error is returned only
/// for an invalid request: a failure that a provider hands back is
/// normalised first (`normalized_provider_error`). A failure of one
/// waypoint's search is recorded as an empty place list for that index
/// and the remaining waypoints go on; the response keeps every entry in
/// waypoint order.
pub fn route_search<P, D: DirectionsProvider, S: PlaceSearchProvider<P>, M: DistanceModel>(
    req: &RouteRequest,
    directions: &mut D,
    places: &mut S,
    distances: &M,
) -> (r: Result<RouteSearchResponse<P>, Error>)
    ensures
        req.query@.len() == 0 ==> (r matches Err(e) && is_validation_error(
            e,
            "query"@,
            "query is required"@,
        )),
        req.query@.len() > 0 && req.from@.len() == 0 ==> (r matches Err(e) && is_validation_error(
            e,
            "from"@,
            "origin is required"@,
        )),
        req.query@.len() > 0 && req.from@.len() > 0 && req.to@.len() == 0 ==> (r matches Err(e)
            && is_validation_error(e, "to"@, "destination is required"@)),
        (r matches Err(e) && e matches Error::Validation { .. }) ==> !req.valid(),
        r matches Ok(resp) ==> {
            &&& req.valid()
            &&& resp.from == req.from
            &&& resp.to == req.to
            &&& resp.travel_mode@ == travel_mode_api_str(req.travel_mode)
            &&& resp.waypoints@.len() >= 1
            &&& req.max_waypoints > 0 ==> resp.waypoints@.len() <= req.max_waypoints
            &&& forall|i: int|
                0 <= i < resp.waypoints@.len() ==> (#[trigger] resp.waypoints@[i]).waypoint_index
                    == i
        },
{
    match req.validate() {
        Err(e) => {
            return Err(e);
        },
        Ok(()) => {},
    }
    let route_result = directions.compute_route(req.from.as_str(), req.to.as_str(), req.travel_mode);
    let path = match route_points_from_directions(route_result) {
        Ok(p) => p,
        Err(e) => {
            return Err(e);
        },
    };
    let dists = segment_distances(distances, &path);
    let n: usize = req.max_waypoints as usize;
    let wps = sample_waypoints(&path, &dists, n);
    let m: usize = wps.len();
    let mut results: Vec<RouteWaypointResult<P>> = Vec::new();
    let mut i: usize = 0;
    while i < m
        invariant
            i <= m == wps@.len(),
            results@.len() == i,
            forall|q: int|
                0 <= q < i ==> (#[trigger] results@[q]).waypoint_index == q && results@[q].waypoint
                    == wps@[q],
        decreases m - i,
    {
        let query = waypoint_query(req, wps[i]);
        let outcome = places.search_near(&query);
        let record = collect_waypoint_result(wps[i], i, outcome);
        results.push(record);
        i = i + 1;
    }
    Ok(assemble_route_response(req, results))
}

} // verus!
