//! The three reserved bands of the 32-bit space and the classifier that
//! tells which one a value falls in.

use vstd::prelude::*;

verus! {

/// The axis that a band of community values is reserved for.
#[derive(Clone, Copy, Debug, PartialEq, Eq, Structural)]
pub enum Band {
    Latitude,
    Longitude,
    Altitude,
}

/// Lowest value of a band.
pub open spec fn band_low(b: Band) -> int {
    match b {
        Band::Latitude => 600_000_000,
        Band::Longitude => 900_000_000,
        Band::Altitude => 681_611_393,
    }
}

/// Highest value of a band.
pub open spec fn band_high(b: Band) -> int {
    match b {
        Band::Latitude => 633_554_431,
        Band::Longitude => 967_108_863,
        Band::Altitude => 698_388_607,
    }
}

/// Whether `v` lies in band `b`, bounds included.
pub open spec fn in_band(v: int, b: Band) -> bool {
    band_low(b) <= v <= band_high(b)
}

/// The bands in the order in which they are tried.
pub open spec fn band_order() -> Seq<Band> {
    seq![Band::Latitude, Band::Longitude, Band::Altitude]
}

/// No value lies in two different bands.
pub proof fn lemma_bands_disjoint(v: int, a: Band, b: Band)
    requires
        in_band(v, a),
        in_band(v, b),
    ensures
        a == b,
{
}

impl Band {
    /// Lowest value of the band.
    pub fn low(self) -> (r: u32)
        ensures
            r == band_low(self),
    {
        match self {
            Band::Latitude => 600_000_000,
            Band::Longitude => 900_000_000,
            Band::Altitude => 681_611_393,
        }
    }

    /// Highest value of the band.
    pub fn high(self) -> (r: u32)
        ensures
            r == band_high(self),
    {
        match self {
            Band::Latitude => 633_554_431,
            Band::Longitude => 967_108_863,
            Band::Altitude => 698_388_607,
        }
    }

    /// Whether `value` lies in the band.
    pub fn contains(self, value: u32) -> (r: bool)
        ensures
            r == in_band(value as int, self),
    {
        self.low() <= value && value <= self.high()
    }
}

/// The band that `value` lies in, if any. The bands are tried one after the
/// other; since they are disjoint, the answer does not depend on the order.
pub fn classify(value: u32) -> (r: Option<Band>)
    ensures
        forall|b: Band| (r == Some(b)) <==> #[trigger] in_band(value as int, b),
{
    let order: [Band; 3] = [Band::Latitude, Band::Longitude, Band::Altitude];
    assert(order@ == band_order());
    let mut i: usize = 0;
    while i < 3
        invariant
            0 <= i <= 3,
            order@ == band_order(),
            forall|j: int| 0 <= j < i ==> !in_band(value as int, #[trigger] band_order()[j]),
        decreases 3 - i,
    {
        let b = order[i];
        if b.contains(value) {
            proof {
                assert forall|c: Band| in_band(value as int, c) implies Some(b) == Some(c) by {
                    lemma_bands_disjoint(value as int, b, c);
                }
            }
            return Some(b);
        }
        i = i + 1;
    }
    proof {
        assert forall|c: Band| !in_band(value as int, c) by {
            match c {
                Band::Latitude => assert(!in_band(value as int, band_order()[0])),
                Band::Longitude => assert(!in_band(value as int, band_order()[1])),
                Band::Altitude => assert(!in_band(value as int, band_order()[2])),
            }
        }
    }
    None
}

} // verus!
