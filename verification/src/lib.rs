//! Empty weight and centre of gravity of an aircraft, estimated from named
//! design parameters with the class II component build-up method.
//!
//! Every part of the aircraft (wing structure, nacelles, landing gear,
//! systems, tailplanes, ...) is a [`Component`]: it is built from a table of
//! parameters, it has a weight given by an empirical sizing equation, and
//! its weight acts at a point. Groups of parts are components too: a group
//! weighs the sum of its parts, and its centre of gravity is the sum of
//! weight times position divided by the sum of the weights.
//!
//! All quantities are decimal numbers with six fractional digits, held as
//! whole numbers of millionths, so that sums, moments and quotients are
//! exact. The sizing equations raise their inputs to fractional powers;
//! the library states each of them as a [`Formula`] and takes the value of
//! such a formula from an evaluator that the caller supplies. What is
//! computed here is what can be computed exactly: which inputs an equation
//! needs and whether they are present, whether its divisors are positive,
//! the value of every formula that is a polynomial, whether a weight is
//! negative, and how weights and moments add up.
//!
//! [`Component`]: components::Component
//! [`Formula`]: components::formula::Formula
pub mod components;
pub mod failure;
pub mod params;
pub mod utils;
