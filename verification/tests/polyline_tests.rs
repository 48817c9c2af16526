use zupo::decode_polyline;
use zupo::LatLngE5;

fn pt(lat: i64, lng: i64) -> LatLngE5 {
    LatLngE5 { latitude_e5: lat, longitude_e5: lng }
}

#[test]
fn decode_reference_polyline() {
    let points = decode_polyline("_p~iF~ps|U_ulLnnqC_mqNvxq`@");
    assert_eq!(points.len(), 3);
    assert_eq!(points[0], pt(3850000, -12020000));
    assert_eq!(points[1], pt(4070000, -12095000));
    assert_eq!(points[2], pt(4325200, -12645300));
}

#[test]
fn decode_empty_string_yields_no_points() {
    let points = decode_polyline("");
    assert!(points.is_empty());
}

#[test]
fn decode_is_deterministic() {
    let a = decode_polyline("_p~iF~ps|U_ulLnnqC_mqNvxq`@");
    let b = decode_polyline("_p~iF~ps|U_ulLnnqC_mqNvxq`@");
    assert_eq!(a, b);
}

#[test]
fn decode_latitude_only_pair_fills_longitude_with_zero() {
    // The first latitude delta of the reference string, with the
    // longitude delta missing entirely.
    let points = decode_polyline("_p~iF");
    assert_eq!(points, vec![pt(3850000, 0)]);
}

#[test]
fn decode_truncated_mid_group_does_not_fail() {
    // "~ps|U" continues past the cut; the decoder must stop silently.
    let points = decode_polyline("_p~iF~ps");
    assert_eq!(points.len(), 1);
    assert_eq!(points[0].latitude_e5, 3850000);
}

#[test]
fn decode_prefix_of_reference_gives_prefix_of_points() {
    let full = decode_polyline("_p~iF~ps|U_ulLnnqC_mqNvxq`@");
    let prefix = decode_polyline("_p~iF~ps|U_ulLnnqC");
    assert_eq!(prefix.len(), 2);
    assert_eq!(prefix[0], full[0]);
    assert_eq!(prefix[1], full[1]);
}

#[test]
fn decode_single_terminal_byte() {
    // '?' is 63: a lone zero group for the latitude, nothing for the
    // longitude.
    let points = decode_polyline("?");
    assert_eq!(points, vec![pt(0, 0)]);
}

#[test]
fn decode_single_continuation_byte() {
    // '_' is 95: a continuation group with an empty payload, cut off by
    // the end of input.
    let points = decode_polyline("_");
    assert_eq!(points, vec![pt(0, 0)]);
}
