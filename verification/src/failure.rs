//! Why a weight or a centre of gravity could not be given.
use vstd::prelude::*;

verus! {

/// The contributors to weight and balance: the leaves, and the groups that
/// add them up.
#[derive(Clone, Copy, Debug, PartialEq, Eq, Structural)]
pub enum Part {
    WingsStructure,
    Nacelle,
    EngineControls,
    FuelSystem,
    EnginePneumaticStarter,
    FuselageStructure,
    HydrolicSystem,
    MainLandingGear,
    NoseLandingGear,
    Furnishing,
    AirConditioning,
    ElectricalSystems,
    Instruments,
    Avionics,
    FlightControls,
    InstalledApu,
    AntiIcing,
    HandlingGear,
    HorizontalTailplane,
    VerticalTailplane,
    Pilots,
    Crew,
    Passengers,
    Payload,
    Fuel,
    Wings,
    Fuselage,
    Tailplane,
    Engines,
    LandingGear,
    Systems,
    Aircraft,
}

/// A computation that did not produce a value, and the part it failed for.
///
/// Failures are final: a group fails with the failure of the first of its
/// members that fails, and nothing is put in place of a missing value.
#[derive(Clone, Copy, Debug, PartialEq, Eq)]
pub enum Failure {
    /// The parameter source has no value under `symbol`.
    MissingParameter { part: Part, symbol: &'static str },
    /// A divisor is zero or negative, an angle reaches a quarter turn, or a
    /// centre of gravity is asked of a group that weighs nothing.
    InvalidGeometry { part: Part },
    /// The sizing equation gave a weight below zero.
    NegativeWeight { part: Part },
    /// A quantity has no finite value or is too large to be held.
    OutOfRange { part: Part },
}

} // verus!
