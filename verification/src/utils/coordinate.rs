//! Plain coordinate triples.
use core::ops::Add;
use vstd::prelude::*;
use vstd::std_specs::ops::AddSpecImpl;
use crate::utils::fixed::Fixed;

verus! {

/// A position in feet.
#[derive(Clone, Copy, Debug)]
pub struct Coordinate {
    pub x: Fixed,
    pub y: Fixed,
    pub z: Fixed,
}

impl Coordinate {
    pub fn new(x: Fixed, y: Fixed, z: Fixed) -> (c: Self)
        ensures
            c == (Coordinate { x, y, z }),
    {
        Self { x, y, z }
    }

    /// The origin of the frame.
    pub fn new_origin() -> (c: Self)
        ensures
            c == (Coordinate { x: Fixed { raw: 0 }, y: Fixed { raw: 0 }, z: Fixed { raw: 0 } }),
    {
        Self { x: Fixed { raw: 0 }, y: Fixed { raw: 0 }, z: Fixed { raw: 0 } }
    }
}

impl AddSpecImpl<Coordinate> for Coordinate {
    open spec fn obeys_add_spec() -> bool {
        true
    }

    open spec fn add_req(self, rhs: Coordinate) -> bool {
        &&& Fixed::sum(self.x, rhs.x) is Some
        &&& Fixed::sum(self.y, rhs.y) is Some
        &&& Fixed::sum(self.z, rhs.z) is Some
    }

    open spec fn add_spec(self, rhs: Coordinate) -> Coordinate {
        Coordinate {
            x: Fixed::sum(self.x, rhs.x).unwrap(),
            y: Fixed::sum(self.y, rhs.y).unwrap(),
            z: Fixed::sum(self.z, rhs.z).unwrap(),
        }
    }
}

/// Coordinate-wise sum of two positions whose sums can be held.
impl Add<Coordinate> for Coordinate {
    type Output = Coordinate;

    fn add(self, rhs: Coordinate) -> (r: Coordinate) {
        Coordinate {
            x: Fixed { raw: self.x.raw + rhs.x.raw },
            y: Fixed { raw: self.y.raw + rhs.y.raw },
            z: Fixed { raw: self.z.raw + rhs.z.raw },
        }
    }
}

} // verus!
