//! Points on the globe, and the range checks on them.
//!
//! A coordinate travels as the IEEE-754 bit pattern of the double the caller
//! sent (`f64::to_bits`). Nothing here computes with it: the checks below read
//! its magnitude straight off the pattern, which orders non-negative doubles
//! exactly as their values are ordered.

use vstd::prelude::*;
use vstd::string::*;

use crate::text::{concat, concat3, views};
use crate::validation::report;

verus! {

/// A point, in decimal degrees, each as the bit pattern of a double.
#[derive(Clone, Copy, PartialEq, Eq, Structural, Debug)]
pub struct Coordinates {
    pub latitude: u64,
    pub longitude: u64,
}

/// The bit pattern of `90.0`.
pub const LATITUDE_LIMIT: u64 = 0x4056_8000_0000_0000;

/// The bit pattern of `180.0`.
pub const LONGITUDE_LIMIT: u64 = 0x4066_8000_0000_0000;

/// Clears the sign bit: what is left is the pattern of the magnitude, and it
/// is above the pattern of infinity exactly for the NaNs.
pub const MAGNITUDE_MASK: u64 = 0x7fff_ffff_ffff_ffff;

/// The double with pattern `bits` lies in `[-limit, limit]` (for a finite,
/// non-negative `limit` given by its pattern): its magnitude is at most the
/// limit, and it is not a NaN.
pub open spec fn within(bits: u64, limit: u64) -> bool {
    (bits & MAGNITUDE_MASK) <= limit
}

pub fn is_within(bits: u64, limit: u64) -> (r: bool)
    ensures
        r == within(bits, limit),
{
    (bits & MAGNITUDE_MASK) <= limit
}

/// What a latitude/longitude pair is reported for: each out of range, or one
/// given without the other.
#[verifier::opaque]
pub open spec fn coordinate_errors(latitude: Option<u64>, longitude: Option<u64>, field: Seq<char>) -> Seq<
    Seq<char>,
> {
    match (latitude, longitude) {
        (Some(lat), Some(lon)) => (if within(lat, LATITUDE_LIMIT) {
            Seq::empty()
        } else {
            seq![field + ".latitude must be between -90 and 90"@]
        }) + (if within(lon, LONGITUDE_LIMIT) {
            Seq::empty()
        } else {
            seq![field + ".longitude must be between -180 and 180"@]
        }),
        (None, None) => Seq::empty(),
        _ => seq![field + ".latitude and "@ + field + ".longitude must be given together"@],
    }
}

/// Latitude and longitude are useless apart — one without the other yields no
/// distance — so require the pair, and check each is on the globe.
pub fn check_coordinates(
    latitude: Option<u64>,
    longitude: Option<u64>,
    field: &str,
    errors: &mut Vec<String>,
)
    ensures
        views(final(errors)@) == views(old(errors)@) + coordinate_errors(latitude, longitude, field@),
{
    proof {
        reveal(coordinate_errors);
    }
    match (latitude, longitude) {
        (Some(lat), Some(lon)) => {
            if !is_within(lat, LATITUDE_LIMIT) {
                report(errors, concat(field, ".latitude must be between -90 and 90"));
            }
            let ghost middle = views(errors@);
            if !is_within(lon, LONGITUDE_LIMIT) {
                report(errors, concat(field, ".longitude must be between -180 and 180"));
            }
            proof {
                let a: Seq<Seq<char>> = if within(lat, LATITUDE_LIMIT) {
                    Seq::empty()
                } else {
                    seq![field@ + ".latitude must be between -90 and 90"@]
                };
                let b: Seq<Seq<char>> = if within(lon, LONGITUDE_LIMIT) {
                    Seq::empty()
                } else {
                    seq![field@ + ".longitude must be between -180 and 180"@]
                };
                assert(middle =~= views(old(errors)@) + a);
                assert(views(errors@) =~= middle + b);
                assert(views(errors@) =~= views(old(errors)@) + coordinate_errors(
                    latitude,
                    longitude,
                    field@,
                ));
            }
        },
        (None, None) => {
            proof {
                assert(views(errors@) =~= views(old(errors)@) + coordinate_errors(
                    latitude,
                    longitude,
                    field@,
                ));
            }
        },
        _ => {
            let mut message = concat3(field, ".latitude and ", field);
            message.append(".longitude must be given together");
            report(errors, message);
            proof {
                assert(views(final(errors)@) =~= views(old(errors)@) + coordinate_errors(
                    latitude,
                    longitude,
                    field@,
                ));
            }
        },
    }
}

} // verus!
