//! What an aircraft carries: people, payload and fuel.
//!
//! These weights are products of two numbers and need no evaluator. A
//! product is rounded down to the next millionth of a pound.
use vstd::arithmetic::div_mod::lemma_fundamental_div_mod;
use vstd::prelude::*;
use crate::components::balance::Balance;
use crate::components::balance::Contribution;
use crate::components::balance::Totals;
use crate::components::group::moments;
use crate::components::evaluation::settle_weight;
use crate::components::evaluation::settled_weight;
use crate::failure::Failure;
use crate::failure::Part;
use crate::utils::fixed::floor_div;
use crate::utils::fixed::Fixed;
use crate::utils::point::Point;
use crate::utils::weight::Weight;

verus! {

/// Where the pilots sit, in millionths of a foot aft of the nose: 39.37 in
/// plus 2 ft.
pub const PILOTS_STATION: i64 = 5_280_833;

/// The middle of the cabin, where the cabin crew is taken to be, in
/// millionths of a foot aft of the nose.
pub const CREW_STATION: i64 = 47_000_000;

/// Where the first row of seats begins, in millionths of a foot aft of the
/// nose.
pub const SEATS_START: i64 = 4_148_888;

/// Length of the fifteen rows of seats and the gap behind them, 41.5 ft, in
/// millionths of a foot.
pub const SEATS_LENGTH: i64 = 41_500_000;

/// Number of seats: fifteen rows of six.
pub const SEATS: i64 = 90;

/// The weight of `number` things of `each` pounds: their product, which
/// must not be negative and must be small enough to be held.
pub open spec fn load_weight(part: Part, number: Fixed, each: Fixed) -> Result<Weight, Failure> {
    settled_weight(part, number.ratio(each.raw, 1_000_000))
}

/// What a load of this weight at this point adds to the moments of the
/// aircraft.
pub open spec fn load_moment(part: Part, weight: Result<Weight, Failure>, cg: Point<Fixed>) -> Result<
    Point<i128>,
    Failure,
> {
    match weight {
        Err(e) => Err(e),
        Ok(w) => moments(Ok(Totals::of(Contribution { part, weight: w, cg }))),
    }
}

fn weigh_load(part: Part, number: Fixed, each: Fixed) -> (r: Result<Weight, Failure>)
    ensures
        r == load_weight(part, number, each),
{
    settle_weight(part, number.scaled(each.raw, 1_000_000))
}

fn moment_of_load(part: Part, weight: Result<Weight, Failure>, cg: Point<Fixed>) -> (r: Result<
    Point<i128>,
    Failure,
>)
    ensures
        r == load_moment(part, weight, cg),
{
    match weight {
        Err(e) => Err(e),
        Ok(w) => Ok(Balance::of_one(&Contribution { part, weight: w, cg }).pos_times_weight()),
    }
}

/// The pilots.
#[derive(Clone, Copy, Debug)]
pub struct Pilots {
    /// Number of pilots.
    pub num_pilots: Fixed,
    /// Weight of one pilot in lb.
    pub weight_per_pilot: Fixed,
    /// Where the pilots sit.
    pub cg: Point<Fixed>,
}

impl Pilots {
    pub fn new(num_pilots: Fixed, weight_per_pilot: Fixed) -> (r: Self)
        ensures
            r == (Pilots {
                num_pilots,
                weight_per_pilot,
                cg: Point {
                    x: Fixed { raw: PILOTS_STATION },
                    y: Fixed { raw: 0 },
                    z: Fixed { raw: 0 },
                },
            }),
    {
        Self {
            num_pilots,
            weight_per_pilot,
            cg: Point::new(Fixed { raw: PILOTS_STATION }, Fixed { raw: 0 }, Fixed { raw: 0 }),
        }
    }

    /// The weight of all pilots.
    pub fn weight(&self) -> (r: Result<Weight, Failure>)
        ensures
            r == load_weight(Part::Pilots, self.num_pilots, self.weight_per_pilot),
    {
        weigh_load(Part::Pilots, self.num_pilots, self.weight_per_pilot)
    }

    /// Position times weight.
    pub fn pos_times_weight(&self) -> (r: Result<Point<i128>, Failure>)
        ensures
            r == load_moment(
                Part::Pilots,
                load_weight(Part::Pilots, self.num_pilots, self.weight_per_pilot),
                self.cg,
            ),
    {
        moment_of_load(Part::Pilots, self.weight(), self.cg)
    }
}

/// The cabin crew.
#[derive(Clone, Copy, Debug)]
pub struct Crew {
    /// Number of crew.
    pub num_crew: Fixed,
    /// Weight of one member of the crew in lb.
    pub weight_per_crew: Fixed,
    /// Where the crew is taken to be.
    pub cg: Point<Fixed>,
}

impl Crew {
    pub fn new(num_crew: Fixed, weight_per_crew: Fixed) -> (r: Self)
        ensures
            r == (Crew {
                num_crew,
                weight_per_crew,
                cg: Point { x: Fixed { raw: CREW_STATION }, y: Fixed { raw: 0 }, z: Fixed { raw: 0 } },
            }),
    {
        Self {
            num_crew,
            weight_per_crew,
            cg: Point::new(Fixed { raw: CREW_STATION }, Fixed { raw: 0 }, Fixed { raw: 0 }),
        }
    }

    /// The weight of the whole crew.
    pub fn weight(&self) -> (r: Result<Weight, Failure>)
        ensures
            r == load_weight(Part::Crew, self.num_crew, self.weight_per_crew),
    {
        weigh_load(Part::Crew, self.num_crew, self.weight_per_crew)
    }

    /// Position times weight.
    pub fn pos_times_weight(&self) -> (r: Result<Point<i128>, Failure>)
        ensures
            r == load_moment(
                Part::Crew,
                load_weight(Part::Crew, self.num_crew, self.weight_per_crew),
                self.cg,
            ),
    {
        moment_of_load(Part::Crew, self.weight(), self.cg)
    }
}

/// From which end the cabin is filled.
#[derive(Clone, Copy, Debug, PartialEq, Eq, Structural)]
pub enum LoadCase {
    Front,
    Rear,
    Center,
}

/// The passengers.
#[derive(Clone, Copy, Debug)]
pub struct Passengers {
    /// Number of passengers.
    pub num_passengers: Fixed,
    /// Weight of one passenger in lb.
    pub weight_per_passenger: Fixed,
    /// From which end the cabin is filled.
    pub load_case: LoadCase,
}

/// Length of the rows that `number` passengers fill, in millionths of a
/// foot: the length of the seats times the part of the seats that is taken,
/// rounded down.
pub open spec fn rows_filled(number: Fixed) -> int {
    (number.raw * SEATS_LENGTH) / (SEATS * 1_000_000)
}

/// Where the passengers act along the cabin, in millionths of a foot aft of
/// the nose: at the middle of the seats where the cabin is filled evenly, at
/// the end of the rows filled from the front, or as far before the end of
/// the seats where it is filled from the rear.
pub open spec fn seat_station(number: Fixed, load_case: LoadCase) -> int {
    match load_case {
        LoadCase::Center => SEATS_START + SEATS_LENGTH / 2,
        LoadCase::Front => SEATS_START + rows_filled(number),
        LoadCase::Rear => SEATS_START + SEATS_LENGTH - rows_filled(number),
    }
}

impl Passengers {
    pub fn new(num_passengers: Fixed, weight_per_passenger: Fixed, load_case: LoadCase) -> (r: Self)
        ensures
            r == (Passengers { num_passengers, weight_per_passenger, load_case }),
    {
        Self { num_passengers, weight_per_passenger, load_case }
    }

    /// The weight of all passengers.
    pub fn weight(&self) -> (r: Result<Weight, Failure>)
        ensures
            r == load_weight(Part::Passengers, self.num_passengers, self.weight_per_passenger),
    {
        weigh_load(Part::Passengers, self.num_passengers, self.weight_per_passenger)
    }

    /// Where the passengers act.
    pub fn cg(&self) -> (r: Point<Fixed>)
        ensures
            i64::MIN <= seat_station(self.num_passengers, self.load_case) <= i64::MAX,
            r == (Point {
                x: Fixed { raw: seat_station(self.num_passengers, self.load_case) as i64 },
                y: Fixed { raw: 0 },
                z: Fixed { raw: 0 },
            }),
    {
        let number: i128 = self.num_passengers.raw as i128;
        let span: i128 = 90_000_000;
        assert(span == SEATS * 1_000_000);
        assert(-0x8000_0000_0000_0000 * 41_500_000 <= number * 41_500_000 && number * 41_500_000
            <= 0x8000_0000_0000_0000 * 41_500_000) by (nonlinear_arith)
            requires
                -0x8000_0000_0000_0000 <= number <= 0x8000_0000_0000_0000,
        ;
        let rows: i128 = floor_div(number * SEATS_LENGTH as i128, span);
        proof {
            let a = number * 41_500_000;
            lemma_fundamental_div_mod(a as int, 90_000_000);
            assert(-0x4000_0000_0000_0000 <= rows <= 0x4000_0000_0000_0000) by (nonlinear_arith)
                requires
                    a == 90_000_000 * rows + (a % 90_000_000),
                    0 <= a % 90_000_000 < 90_000_000,
                    -0x8000_0000_0000_0000 * 41_500_000 <= a <= 0x8000_0000_0000_0000 * 41_500_000,
            ;
        }
        let x: i128 = match self.load_case {
            LoadCase::Center => (SEATS_START + SEATS_LENGTH / 2) as i128,
            LoadCase::Front => SEATS_START as i128 + rows,
            LoadCase::Rear => (SEATS_START + SEATS_LENGTH) as i128 - rows,
        };
        Point::new(Fixed { raw: x as i64 }, Fixed { raw: 0 }, Fixed { raw: 0 })
    }

    /// Position times weight.
    pub fn pos_times_weight(&self) -> (r: Result<Point<i128>, Failure>)
        ensures
            r == load_moment(
                Part::Passengers,
                load_weight(Part::Passengers, self.num_passengers, self.weight_per_passenger),
                Point {
                    x: Fixed { raw: seat_station(self.num_passengers, self.load_case) as i64 },
                    y: Fixed { raw: 0 },
                    z: Fixed { raw: 0 },
                },
            ),
    {
        moment_of_load(Part::Passengers, self.weight(), self.cg())
    }
}

/// The payload.
#[derive(Clone, Copy, Debug)]
pub struct Payload {
    /// Weight of the payload in lb.
    pub payload_weight: Fixed,
    /// Where the payload acts.
    pub cg: Point<Fixed>,
}

impl Payload {
    /// A payload of this weight at the origin of the frame.
    pub fn new(payload_weight: Fixed) -> (r: Self)
        ensures
            r == (Payload {
                payload_weight,
                cg: Point { x: Fixed { raw: 0 }, y: Fixed { raw: 0 }, z: Fixed { raw: 0 } },
            }),
    {
        Self {
            payload_weight,
            cg: Point::new(Fixed { raw: 0 }, Fixed { raw: 0 }, Fixed { raw: 0 }),
        }
    }

    /// The weight of the payload, which must not be negative.
    pub fn weight(&self) -> (r: Result<Weight, Failure>)
        ensures
            r == settled_weight(Part::Payload, Some(self.payload_weight)),
    {
        settle_weight(Part::Payload, Some(self.payload_weight))
    }

    /// Position times weight.
    pub fn pos_times_weight(&self) -> (r: Result<Point<i128>, Failure>)
        ensures
            r == load_moment(
                Part::Payload,
                settled_weight(Part::Payload, Some(self.payload_weight)),
                self.cg,
            ),
    {
        moment_of_load(Part::Payload, self.weight(), self.cg)
    }
}

/// The fuel.
#[derive(Clone, Copy, Debug)]
pub struct Fuel {
    /// Weight of the fuel in lb.
    pub fuel_weight: Fixed,
    /// Where the fuel acts.
    pub cg: Point<Fixed>,
}

impl Fuel {
    pub fn new(fuel_weight: Fixed, cg: Point<Fixed>) -> (r: Self)
        ensures
            r == (Fuel { fuel_weight, cg }),
    {
        Self { fuel_weight, cg }
    }

    /// The weight of the fuel, which must not be negative.
    pub fn weight(&self) -> (r: Result<Weight, Failure>)
        ensures
            r == settled_weight(Part::Fuel, Some(self.fuel_weight)),
    {
        settle_weight(Part::Fuel, Some(self.fuel_weight))
    }

    /// Position times weight.
    pub fn pos_times_weight(&self) -> (r: Result<Point<i128>, Failure>)
        ensures
            r == load_moment(
                Part::Fuel,
                settled_weight(Part::Fuel, Some(self.fuel_weight)),
                self.cg,
            ),
    {
        moment_of_load(Part::Fuel, self.weight(), self.cg)
    }
}

} // verus!
