//! Points of the aircraft reference frame.
use core::ops::Add;
use core::ops::Div;
use core::ops::Mul;
use vstd::prelude::*;
use vstd::std_specs::ops::AddSpec;
use vstd::std_specs::ops::AddSpecImpl;
use vstd::std_specs::ops::DivSpec;
use vstd::std_specs::ops::DivSpecImpl;
use vstd::std_specs::ops::MulSpec;
use vstd::std_specs::ops::MulSpecImpl;

verus! {

/// Three coordinates in one aircraft-fixed frame: `x` runs aft, `y` to the
/// side and `z` up.
///
/// A point serves both as a position and, with each coordinate multiplied by
/// a weight, as a moment.
#[derive(Copy, Clone, Debug)]
pub struct Point<T> {
    pub x: T,
    pub y: T,
    pub z: T,
}

impl<T> Point<T> {
    pub fn new(x: T, y: T, z: T) -> (p: Self)
        ensures
            p == (Point { x, y, z }),
    {
        Self { x, y, z }
    }

    pub fn x(&self) -> (r: &T)
        ensures
            *r == self.x,
    {
        &self.x
    }

    pub fn y(&self) -> (r: &T)
        ensures
            *r == self.y,
    {
        &self.y
    }

    pub fn z(&self) -> (r: &T)
        ensures
            *r == self.z,
    {
        &self.z
    }
}

impl<T: Add<Output = T>> AddSpecImpl<Point<T>> for Point<T> {
    open spec fn obeys_add_spec() -> bool {
        T::obeys_add_spec()
    }

    open spec fn add_req(self, rhs: Point<T>) -> bool {
        self.x.add_req(rhs.x) && self.y.add_req(rhs.y) && self.z.add_req(rhs.z)
    }

    open spec fn add_spec(self, rhs: Point<T>) -> Point<T> {
        Point { x: self.x.add_spec(rhs.x), y: self.y.add_spec(rhs.y), z: self.z.add_spec(rhs.z) }
    }
}

/// Coordinate-wise sum.
impl<T: Add<Output = T>> Add<Point<T>> for Point<T> {
    type Output = Point<T>;

    fn add(self, rhs: Point<T>) -> (r: Point<T>) {
        Point { x: self.x + rhs.x, y: self.y + rhs.y, z: self.z + rhs.z }
    }
}

impl<T: Mul<Output = T> + Copy> MulSpecImpl<T> for Point<T> {
    open spec fn obeys_mul_spec() -> bool {
        T::obeys_mul_spec()
    }

    open spec fn mul_req(self, rhs: T) -> bool {
        self.x.mul_req(rhs) && self.y.mul_req(rhs) && self.z.mul_req(rhs)
    }

    open spec fn mul_spec(self, rhs: T) -> Point<T> {
        Point { x: self.x.mul_spec(rhs), y: self.y.mul_spec(rhs), z: self.z.mul_spec(rhs) }
    }
}

/// Every coordinate multiplied by `rhs`.
impl<T: Mul<Output = T> + Copy> Mul<T> for Point<T> {
    type Output = Point<T>;

    fn mul(self, rhs: T) -> (r: Point<T>) {
        Point { x: self.x * rhs, y: self.y * rhs, z: self.z * rhs }
    }
}

impl<T: Div<Output = T> + Copy> DivSpecImpl<T> for Point<T> {
    open spec fn obeys_div_spec() -> bool {
        T::obeys_div_spec()
    }

    open spec fn div_req(self, rhs: T) -> bool {
        self.x.div_req(rhs) && self.y.div_req(rhs) && self.z.div_req(rhs)
    }

    open spec fn div_spec(self, rhs: T) -> Point<T> {
        Point { x: self.x.div_spec(rhs), y: self.y.div_spec(rhs), z: self.z.div_spec(rhs) }
    }
}

/// Every coordinate divided by `rhs`.
impl<T: Div<Output = T> + Copy> Div<T> for Point<T> {
    type Output = Point<T>;

    fn div(self, rhs: T) -> (r: Point<T>) {
        Point { x: self.x / rhs, y: self.y / rhs, z: self.z / rhs }
    }
}

} // verus!
