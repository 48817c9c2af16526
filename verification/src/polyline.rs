use vstd::prelude::*;
use vstd::string::StringSliceAdditionalSpecFns;
use vstd::string::StrSliceExecFns;

use crate::types::LatLngE5;

verus! {

// An encoded polyline is a run of ASCII bytes. Each coordinate delta is
// written as a zig-zag-encoded integer, split into 5-bit groups from the
// least significant end; every group is offset by 63, and a group with
// byte value 95 or above carries a continuation marker in its sixth bit.
// Points alternate a latitude delta and a longitude delta, each
// accumulated onto a running total that starts at zero.
//
// Decoding is total: input exhausted in the middle of a group or of a
// point ends the decode silently with what has accumulated so far.

/// The 5-bit payload of one group byte: `(b - 63) & 0x1f`, written as a
/// remainder (the two agree because 64 is a multiple of 32).
pub open spec fn group_payload(b: u8) -> u64 {
    (((b as int) + 1) % 32) as u64
}

/// Whether a group byte carries the continuation marker.
pub open spec fn group_continues(b: u8) -> bool {
    b >= 95
}

/// The value and end position of the 5-bit-group integer that starts at
/// position `i`, folded onto an accumulator. Groups past the 64-bit
/// accumulator are consumed but contribute nothing.
pub open spec fn varint_rec(bytes: Seq<u8>, i: int, shift: u32, acc: u64) -> (u64, int)
    decreases bytes.len() - i,
{
    if i < 0 || i >= bytes.len() {
        (acc, i)
    } else {
        let b = bytes[i];
        let acc2 = if shift < 64 {
            acc | (group_payload(b) << shift)
        } else {
            acc
        };
        let shift2 = if shift < 64 {
            (shift + 5) as u32
        } else {
            shift
        };
        if group_continues(b) {
            varint_rec(bytes, i + 1, shift2, acc2)
        } else {
            (acc2, i + 1)
        }
    }
}

/// Zig-zag decoding: the low bit is the sign, the rest the magnitude.
pub open spec fn zigzag(v: u64) -> i64 {
    if v & 1 == 1 {
        (!(v >> 1)) as i64
    } else {
        (v >> 1) as i64
    }
}

/// Running coordinates wrap on overflow, as 64-bit accumulation does.
pub open spec fn wrap_add(a: i64, b: i64) -> i64 {
    vstd::wrapping::i64_specs::wrapping_add(a, b)
}

/// Every 5-bit-group integer ends past where it starts and within the
/// input.
pub proof fn lemma_varint_end(bytes: Seq<u8>, i: int, shift: u32, acc: u64)
    requires
        0 <= i <= bytes.len(),
    ensures
        i <= varint_rec(bytes, i, shift, acc).1 <= bytes.len(),
        i < bytes.len() ==> i + 1 <= varint_rec(bytes, i, shift, acc).1,
    decreases bytes.len() - i,
{
    if i < bytes.len() && group_continues(bytes[i]) {
        let shift2 = if shift < 64 {
            (shift + 5) as u32
        } else {
            shift
        };
        let acc2 = if shift < 64 {
            acc | (group_payload(bytes[i]) << shift)
        } else {
            acc
        };
        lemma_varint_end(bytes, i + 1, shift2, acc2);
    }
}

/// The points encoded from position `i` on, with running coordinates
/// `lat` and `lng`. One point is emitted for every latitude delta begun,
/// even when the input runs out before its longitude delta is complete.
pub open spec fn decode_rec(bytes: Seq<u8>, i: int, lat: i64, lng: i64) -> Seq<LatLngE5>
    decreases bytes.len() - i,
    via decode_rec_decreases
{
    if i < 0 || i >= bytes.len() {
        Seq::empty()
    } else {
        let (vlat, j) = varint_rec(bytes, i, 0, 0);
        let lat2 = wrap_add(lat, zigzag(vlat));
        let (vlng, k) = varint_rec(bytes, j, 0, 0);
        let lng2 = wrap_add(lng, zigzag(vlng));
        seq![LatLngE5 { latitude_e5: lat2, longitude_e5: lng2 }] + decode_rec(
            bytes,
            k,
            lat2,
            lng2,
        )
    }
}

#[via_fn]
proof fn decode_rec_decreases(bytes: Seq<u8>, i: int, lat: i64, lng: i64) {
    if 0 <= i < bytes.len() {
        lemma_varint_end(bytes, i, 0, 0);
        let j = varint_rec(bytes, i, 0, 0).1;
        lemma_varint_end(bytes, j, 0, 0);
    }
}

/// The decoded form of a whole byte sequence.
pub open spec fn decode_spec(bytes: Seq<u8>) -> Seq<LatLngE5> {
    decode_rec(bytes, 0, 0, 0)
}

/// Reads one zig-zag-encoded delta beginning at `start`; total on any
/// input, consuming at least one byte when one remains.
fn read_delta(bytes: &Vec<u8>, start: usize) -> (r: (i64, usize))
    requires
        start <= bytes@.len(),
    ensures
        ({
            let (v, end) = varint_rec(bytes@, start as int, 0, 0);
            r.0 == zigzag(v) && r.1 == end
        }),
        start <= r.1 <= bytes@.len(),
        start < bytes@.len() ==> start + 1 <= r.1,
{
    let n: usize = bytes.len();
    let mut i: usize = start;
    let mut shift: u32 = 0;
    let mut acc: u64 = 0;
    let mut cont: bool = true;
    while cont && i < n
        invariant
            start <= i <= n,
            n == bytes@.len(),
            shift <= 69,
            cont ==> varint_rec(bytes@, start as int, 0, 0) == varint_rec(
                bytes@,
                i as int,
                shift,
                acc,
            ),
            !cont ==> varint_rec(bytes@, start as int, 0, 0) == (acc, i as int),
            !cont ==> start < i,
        decreases n - i,
    {
        let b: u8 = bytes[i];
        i = i + 1;
        let g: u64 = ((b as u64) + 1) % 32;
        if shift < 64 {
            acc = acc | (g << shift);
            shift = shift + 5;
        }
        if b < 95 {
            cont = false;
        }
    }
    let half: u64 = acc >> 1;
    let bits: u64 = if acc & 1 == 1 {
        !half
    } else {
        half
    };
    let delta: i64 = #[verifier::truncate] (bits as i64);
    (delta, i)
}

/// Decodes an encoded polyline into its points, in order. Decoding never
/// fails: malformed or truncated input yields the points accumulated up
/// to the end of the input, and an empty input yields no points.
pub fn decode_polyline(encoded: &str) -> (points: Vec<LatLngE5>)
    ensures
        points@ == decode_spec(encoded.spec_bytes()),
        encoded.spec_bytes().len() == 0 ==> points@.len() == 0,
{
    let bytes: Vec<u8> = encoded.as_bytes_vec();
    let n: usize = bytes.len();
    let mut points: Vec<LatLngE5> = Vec::new();
    let mut lat: i64 = 0;
    let mut lng: i64 = 0;
    let mut i: usize = 0;
    while i < n
        invariant
            i <= n,
            n == bytes@.len(),
            bytes@ == encoded.spec_bytes(),
            decode_spec(encoded.spec_bytes()) == points@ + decode_rec(bytes@, i as int, lat, lng),
        decreases n - i,
    {
        let ghost lat0 = lat;
        let ghost lng0 = lng;
        let ghost points0 = points@;
        let (dlat, j) = read_delta(&bytes, i);
        lat = lat.wrapping_add(dlat);
        let (dlng, k) = read_delta(&bytes, j);
        lng = lng.wrapping_add(dlng);
        let point = LatLngE5 { latitude_e5: lat, longitude_e5: lng };
        points.push(point);
        proof {
            let rest = decode_rec(bytes@, k as int, lat, lng);
            assert(decode_rec(bytes@, i as int, lat0, lng0) == seq![point] + rest);
            assert(points@ =~= points0 + seq![point]);
            assert(points@ + rest =~= points0 + (seq![point] + rest));
        }
        i = k;
    }
    points
}

} // verus!
