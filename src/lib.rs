//! Geographic position carried in 32-bit route-attribute tag values
//! ("communities").
//!
//! Latitude and longitude are handled on the grid of five decimal places:
//! a degree value is an `i64` count of hundred-thousandths of a degree
//! (`3777490` is 37.77490 degrees). Altitude is a whole number of meters.
//! Each axis owns a band of the 32-bit space, and the bands do not overlap,
//! so a value can be classified without knowing which axis produced it.

pub mod arith;
pub mod band;
pub mod codec;
pub mod community;
pub mod text;

pub use band::{classify, Band};
pub use codec::{
    decode_altitude, decode_latitude, decode_longitude, encode_altitude, encode_latitude,
    encode_longitude,
};
pub use community::{decode_community, Communities};
