//! The place that is reported with an attendance code.

use vstd::prelude::*;

verus! {

/// The latitude of the lecture hall, in millionths of a degree.
pub const BASE_LATITUDE: u32 = 38_366_966;

/// The longitude of the lecture hall, in millionths of a degree.
pub const BASE_LONGITUDE: u32 = 27_202_704;

/// A place on the map, both coordinates in millionths of a degree.
#[derive(Clone, Copy, Debug, PartialEq, Eq, Structural)]
pub struct Coords {
    pub latitude: u32,
    pub longitude: u32,
}

/// The offset, in millionths of a degree, that the random number `r`
/// stands for: one of 1 to 9.
pub open spec fn noise(r: u32) -> int {
    r % 9 + 1
}

/// The hall's place, moved by the offsets that `r_lat` and `r_lon` stand
/// for.
pub open spec fn coords_from(r_lat: u32, r_lon: u32) -> Coords {
    Coords {
        latitude: (BASE_LATITUDE + noise(r_lat)) as u32,
        longitude: (BASE_LONGITUDE + noise(r_lon)) as u32,
    }
}

/// A place that `gen_coords` can give: up to nine millionths of a degree
/// north and east of the hall's place, and never that place itself.
pub open spec fn near_hall(c: Coords) -> bool {
    &&& BASE_LATITUDE < c.latitude <= BASE_LATITUDE + 9
    &&& BASE_LONGITUDE < c.longitude <= BASE_LONGITUDE + 9
}

/// Calls `rand::random::<u32>()`, which draws a number from the thread's
/// random number generator. Nothing is claimed of the number. The call
/// panics only where the operating system's source of randomness fails
/// when the thread's generator is seeded: the first time it is used, or
/// one of the times it is seeded anew after it has given out enough.
#[verifier::external_body]
fn random_u32() -> u32 {
    rand::random::<u32>()
}

/// The hall's place, moved by the offsets that two random numbers stand
/// for.
pub fn coords_with_noise(r_lat: u32, r_lon: u32) -> (c: Coords)
    ensures
        c == coords_from(r_lat, r_lon),
        near_hall(c),
{
    Coords {
        latitude: BASE_LATITUDE + (r_lat % 9 + 1),
        longitude: BASE_LONGITUDE + (r_lon % 9 + 1),
    }
}

/// A place near the hall, chosen at random.
pub fn gen_coords() -> (c: Coords)
    ensures
        near_hall(c),
        exists|r_lat: u32, r_lon: u32| c == coords_from(r_lat, r_lon),
{
    let r_lat: u32 = random_u32();
    let r_lon: u32 = random_u32();
    coords_with_noise(r_lat, r_lon)
}

} // verus!
