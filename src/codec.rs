//! The three scalar codecs: latitude, longitude and altitude.

use vstd::prelude::*;

use crate::arith::{clamp, clamp_i64, lemma_round_div_inverse, round_div, round_div_u64};

verus! {

/// Lowest value of the latitude band; it stands for -90 degrees.
pub const LAT_BASE: u32 = 600_000_000;

/// Number of steps across the latitude domain: 2^25 - 1.
pub const LAT_SCALE: u64 = 33_554_431;

/// Half the latitude domain, 90 degrees, in hundred-thousandths.
pub const LAT_LIMIT: i64 = 9_000_000;

/// The code of a latitude given in hundred-thousandths of a degree: the
/// input is clamped to [-90, 90] degrees, shifted to start at zero, scaled
/// so that 180 degrees spans `LAT_SCALE` steps, rounded, and placed above
/// `LAT_BASE`.
pub open spec fn latitude_code(lat: int) -> int {
    LAT_BASE + round_div(
        (clamp(lat, -LAT_LIMIT, LAT_LIMIT as int) + LAT_LIMIT) * LAT_SCALE,
        2 * LAT_LIMIT,
    )
}

/// The latitude, in hundred-thousandths of a degree, that a code stands for.
/// Codes below the band count as its lowest value. The shift by 90 degrees
/// commutes with rounding because no step lands exactly halfway between two
/// grid points (`LAT_SCALE` is odd).
pub open spec fn latitude_of(code: int) -> int {
    let steps = if code >= LAT_BASE {
        code - LAT_BASE
    } else {
        0
    };
    round_div(steps * (2 * LAT_LIMIT), LAT_SCALE as int) - LAT_LIMIT
}

/// Every latitude on the five-decimal grid within [-90, 90] degrees is
/// recovered exactly from its code.
pub proof fn lemma_latitude_round_trip(lat: int)
    requires
        -LAT_LIMIT <= lat <= LAT_LIMIT,
    ensures
        latitude_of(latitude_code(lat)) == lat,
{
    lemma_round_div_inverse(lat + LAT_LIMIT, LAT_SCALE as int, 2 * LAT_LIMIT);
}

/// Encodes a latitude given in hundred-thousandths of a degree.
pub fn encode_latitude(lat: i64) -> (r: u32)
    ensures
        r == latitude_code(lat as int),
        600_000_000 <= r <= 633_554_431,
{
    let clamped = clamp_i64(lat, -LAT_LIMIT, LAT_LIMIT);
    let shifted = (clamped + LAT_LIMIT) as u64;
    assert(shifted * LAT_SCALE <= 2 * LAT_LIMIT * LAT_SCALE) by (nonlinear_arith)
        requires
            shifted <= 2 * LAT_LIMIT,
    ;
    let steps = round_div_u64(shifted * LAT_SCALE, (2 * LAT_LIMIT) as u64);
    assert(steps <= LAT_SCALE) by (nonlinear_arith)
        requires
            steps == (2 * (shifted * LAT_SCALE) + 2 * LAT_LIMIT) / (2 * (2 * LAT_LIMIT)),
            shifted <= 2 * LAT_LIMIT,
    ;
    LAT_BASE + steps as u32
}

/// Decodes a latitude code to hundred-thousandths of a degree.
pub fn decode_latitude(code: u32) -> (r: i64)
    ensures
        r == latitude_of(code as int),
{
    let steps = code.saturating_sub(LAT_BASE) as u64;
    let scaled = round_div_u64(steps * (2 * LAT_LIMIT) as u64, LAT_SCALE);
    assert(scaled <= 0x1_0000_0000 * 2 * LAT_LIMIT) by (nonlinear_arith)
        requires
            scaled == (2 * (steps * (2 * LAT_LIMIT)) + LAT_SCALE) / (2 * LAT_SCALE),
            steps < 0x1_0000_0000,
    ;
    scaled as i64 - LAT_LIMIT
}

/// Lowest value of the longitude band; it stands for -180 degrees.
pub const LON_BASE: u32 = 900_000_000;

/// Number of steps across the longitude domain: 2^26 - 1.
pub const LON_SCALE: u64 = 67_108_863;

/// Half the longitude domain, 180 degrees, in hundred-thousandths.
pub const LON_LIMIT: i64 = 18_000_000;

/// The code of a longitude given in hundred-thousandths of a degree: the
/// input is clamped to [-180, 180] degrees, shifted to start at zero, scaled
/// so that 360 degrees spans `LON_SCALE` steps, rounded, and placed above
/// `LON_BASE`.
pub open spec fn longitude_code(lon: int) -> int {
    LON_BASE + round_div(
        (clamp(lon, -LON_LIMIT, LON_LIMIT as int) + LON_LIMIT) * LON_SCALE,
        2 * LON_LIMIT,
    )
}

/// The longitude, in hundred-thousandths of a degree, that a code stands
/// for. Codes below the band count as its lowest value. As for latitude,
/// `LON_SCALE` is odd, so the shift by 180 degrees commutes with rounding.
pub open spec fn longitude_of(code: int) -> int {
    let steps = if code >= LON_BASE {
        code - LON_BASE
    } else {
        0
    };
    round_div(steps * (2 * LON_LIMIT), LON_SCALE as int) - LON_LIMIT
}

/// Every longitude on the five-decimal grid within [-180, 180] degrees is
/// recovered exactly from its code.
pub proof fn lemma_longitude_round_trip(lon: int)
    requires
        -LON_LIMIT <= lon <= LON_LIMIT,
    ensures
        longitude_of(longitude_code(lon)) == lon,
{
    lemma_round_div_inverse(lon + LON_LIMIT, LON_SCALE as int, 2 * LON_LIMIT);
}

/// Encodes a longitude given in hundred-thousandths of a degree.
pub fn encode_longitude(lon: i64) -> (r: u32)
    ensures
        r == longitude_code(lon as int),
        900_000_000 <= r <= 967_108_863,
{
    let clamped = clamp_i64(lon, -LON_LIMIT, LON_LIMIT);
    let shifted = (clamped + LON_LIMIT) as u64;
    assert(shifted * LON_SCALE <= 2 * LON_LIMIT * LON_SCALE) by (nonlinear_arith)
        requires
            shifted <= 2 * LON_LIMIT,
    ;
    let steps = round_div_u64(shifted * LON_SCALE, (2 * LON_LIMIT) as u64);
    assert(steps <= LON_SCALE) by (nonlinear_arith)
        requires
            steps == (2 * (shifted * LON_SCALE) + 2 * LON_LIMIT) / (2 * (2 * LON_LIMIT)),
            shifted <= 2 * LON_LIMIT,
    ;
    LON_BASE + steps as u32
}

/// Decodes a longitude code to hundred-thousandths of a degree.
pub fn decode_longitude(code: u32) -> (r: i64)
    ensures
        r == longitude_of(code as int),
{
    let steps = code.saturating_sub(LON_BASE) as u64;
    let scaled = round_div_u64(steps * (2 * LON_LIMIT) as u64, LON_SCALE);
    assert(scaled <= 0x1_0000_0000 * 2 * LON_LIMIT) by (nonlinear_arith)
        requires
            scaled == (2 * (steps * (2 * LON_LIMIT)) + LON_SCALE) / (2 * LON_SCALE),
            steps < 0x1_0000_0000,
    ;
    scaled as i64 - LON_LIMIT
}

/// Altitude code of sea level (0 meters).
pub const ALT_BASE: i64 = 690_000_000;

/// Largest altitude magnitude, in meters, that a code can carry.
pub const ALT_MAX: i64 = 8_388_607;

/// The code of an altitude in whole meters: clamped to
/// [-`ALT_MAX`, `ALT_MAX`] and placed around `ALT_BASE`.
pub open spec fn altitude_code(meters: int) -> int {
    ALT_BASE + clamp(meters, -ALT_MAX, ALT_MAX as int)
}

/// A 32-bit value read as a two's-complement signed integer.
pub open spec fn as_signed32(v: int) -> int {
    if v < 0x8000_0000 {
        v
    } else {
        v - 0x1_0000_0000
    }
}

/// The altitude in meters that a code stands for: the code read as a signed
/// 32-bit integer, less `ALT_BASE`, clamped to [-`ALT_MAX`, `ALT_MAX`].
pub open spec fn altitude_of(code: int) -> int {
    clamp(as_signed32(code) - ALT_BASE, -ALT_MAX, ALT_MAX as int)
}

/// Every altitude within [-`ALT_MAX`, `ALT_MAX`] meters is recovered
/// exactly from its code.
pub proof fn lemma_altitude_round_trip(meters: int)
    requires
        -ALT_MAX <= meters <= ALT_MAX,
    ensures
        altitude_of(altitude_code(meters)) == meters,
{
}

/// Encodes an altitude given in whole meters.
pub fn encode_altitude(meters: i64) -> (r: u32)
    ensures
        r == altitude_code(meters as int),
        681_611_393 <= r <= 698_388_607,
{
    (ALT_BASE + clamp_i64(meters, -ALT_MAX, ALT_MAX)) as u32
}

/// Decodes an altitude code to whole meters.
pub fn decode_altitude(code: u32) -> (r: i64)
    ensures
        r == altitude_of(code as int),
{
    let signed: i64 = if code < 0x8000_0000 {
        code as i64
    } else {
        code as i64 - 0x1_0000_0000
    };
    clamp_i64(signed - ALT_BASE, -ALT_MAX, ALT_MAX)
}

} // verus!
