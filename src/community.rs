//! Reading an arbitrary community value, and the record of all three.

use vstd::prelude::*;
use vstd::string::*;

use crate::band::{classify, in_band, Band};
use crate::codec::{altitude_of, decode_altitude, decode_latitude, decode_longitude, latitude_of, longitude_of};
use crate::text::{fixed5_text, integer_text, push_decimal, push_fixed5, push_integer, decimal};

verus! {

/// The text that describes a community value: the decoded coordinate of the
/// band it lies in, or `"Unknown community"` outside all bands.
pub open spec fn community_text(value: int) -> Seq<char> {
    if in_band(value, Band::Latitude) {
        "Latitude: "@ + fixed5_text(latitude_of(value))
    } else if in_band(value, Band::Longitude) {
        "Longitude: "@ + fixed5_text(longitude_of(value))
    } else if in_band(value, Band::Altitude) {
        "Altitude: "@ + integer_text(altitude_of(value)) + " meters"@
    } else {
        "Unknown community"@
    }
}

/// Describes a community value: `"Latitude: 37.77490"`,
/// `"Longitude: -122.41940"`, `"Altitude: 15 meters"`, or
/// `"Unknown community"` for a value outside all three bands.
pub fn decode_community(value: u32) -> (r: String)
    ensures
        r@ == community_text(value as int),
{
    match classify(value) {
        Some(Band::Latitude) => {
            let mut s = String::from_str("Latitude: ");
            push_fixed5(&mut s, decode_latitude(value));
            s
        },
        Some(Band::Longitude) => {
            let mut s = String::from_str("Longitude: ");
            push_fixed5(&mut s, decode_longitude(value));
            s
        },
        Some(Band::Altitude) => {
            let mut s = String::from_str("Altitude: ");
            push_integer(&mut s, decode_altitude(value));
            s.append(" meters");
            s
        },
        None => String::from_str("Unknown community"),
    }
}

/// The three community values of one position, carried together. Nothing
/// ties them to each other.
#[derive(Clone, Copy, Debug, PartialEq, Eq, Structural)]
pub struct Communities {
    pub lat_community: u32,
    pub lon_community: u32,
    pub alt_community: u32,
}

/// The text that shows the three fields of a record by name.
pub open spec fn communities_text(c: Communities) -> Seq<char> {
    "Communities { lat_community: "@ + decimal(c.lat_community as nat) + ", lon_community: "@
        + decimal(c.lon_community as nat) + ", alt_community: "@ + decimal(
        c.alt_community as nat,
    ) + " }"@
}

impl Communities {
    /// The record shown with its fields by name:
    /// `"Communities { lat_community: 1, lon_community: 2, alt_community: 3 }"`.
    /// This is the text that `{:?}` gives.
    pub fn to_debug_string(&self) -> (r: String)
        ensures
            r@ == communities_text(*self),
    {
        let mut s = String::from_str("Communities { lat_community: ");
        push_decimal(&mut s, self.lat_community as u64);
        s.append(", lon_community: ");
        push_decimal(&mut s, self.lon_community as u64);
        s.append(", alt_community: ");
        push_decimal(&mut s, self.alt_community as u64);
        s.append(" }");
        s
    }
}

} // verus!
