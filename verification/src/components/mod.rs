//! Contributors to weight and balance, and how they are added up.
//!
//! A part states its sizing equation and its position as formulas (see
//! [`formula`]). Turning a formula into a number needs, for most of them,
//! powers and cosines of real numbers, which this library does not compute:
//! every function that needs the value of a formula takes an evaluator, a
//! function from a formula to its value in millionths, or to `None` where
//! the value is not finite or too large (see [`evaluation`]). What the parts
//! contribute is added up exactly (see [`group`] and [`balance`]).
pub mod aircraft;
pub mod balance;
pub mod engines;
pub mod evaluation;
pub mod formula;
pub mod fuselage;
pub mod group;
pub mod landing_gear;
pub mod laws;
pub mod member;
pub mod systems;
pub mod tailplane;
pub mod varying;
pub mod wings;

use vstd::prelude::*;
use crate::components::evaluation::accepts_all;
use crate::components::evaluation::answers_of;
use crate::components::evaluation::single_valued;
use crate::components::evaluation::Answers;
use crate::components::formula::Formula;
use crate::failure::Failure;
use crate::params::Params;
use crate::utils::fixed::Fixed;
use crate::utils::point::Point;
use crate::utils::weight::Weight;

verus! {

/// What every contributor to weight and balance offers, a single part and
/// a group of parts alike: it is built from a parameter table, it has a
/// weight, and its weight acts at a point.
///
/// Building never fails. Weight and centre of gravity fail where a
/// parameter that they need is absent, where the geometry is invalid, or
/// where a weight would be negative. Both are functions of the component,
/// the two numbers and what the evaluator returns, and of nothing else.
pub trait Component: Sized {
    /// The component as `table` describes it.
    spec fn from_table(table: Map<Seq<char>, Fixed>) -> Self;

    /// Takes from `params` what the component needs.
    fn new(params: &Params) -> (r: Self)
        ensures
            r == Self::from_table(params@),
    ;

    /// Whether `r` is a weight that the component may be given where formulas
    /// are valued as `answers` says.
    spec fn weight_is(
        &self,
        answers: Answers,
        w_dg: Fixed,
        n_z: Fixed,
        r: Result<Weight, Failure>,
    ) -> bool;

    /// The weight in lb for the design gross weight `w_dg` in lb and the
    /// ultimate load factor `n_z`.
    fn weight<F: Fn(&Formula) -> Option<Fixed>>(&self, w_dg: Fixed, n_z: Fixed, eval: &F) -> (r:
        Result<Weight, Failure>)
        requires
            accepts_all(*eval),
        ensures
            self.weight_is(answers_of(*eval), w_dg, n_z, r),
    ;

    /// Asked twice, a component weighs the same, as long as every formula is
    /// given one value at most.
    proof fn lemma_weight_is_pure(
        &self,
        answers: Answers,
        w_dg: Fixed,
        n_z: Fixed,
        r1: Result<Weight, Failure>,
        r2: Result<Weight, Failure>,
    )
        requires
            single_valued(answers),
            self.weight_is(answers, w_dg, n_z, r1),
            self.weight_is(answers, w_dg, n_z, r2),
        ensures
            r1 == r2,
    ;

    /// Whether `r` is a centre of gravity that the component may be given
    /// where formulas are valued as `answers` says.
    spec fn cg_is(
        &self,
        answers: Answers,
        w_dg: Fixed,
        n_z: Fixed,
        r: Result<Point<Fixed>, Failure>,
    ) -> bool;

    /// The centre of gravity in ft. That of a single part does not depend
    /// on the two numbers; that of a group does, through the weights of its
    /// parts.
    fn cg<F: Fn(&Formula) -> Option<Fixed>>(&self, w_dg: Fixed, n_z: Fixed, eval: &F) -> (r: Result<
        Point<Fixed>,
        Failure,
    >)
        requires
            accepts_all(*eval),
        ensures
            self.cg_is(answers_of(*eval), w_dg, n_z, r),
    ;

    /// Asked twice, a component has the same centre of gravity, as long as
    /// every formula is given one value at most.
    proof fn lemma_cg_is_pure(
        &self,
        answers: Answers,
        w_dg: Fixed,
        n_z: Fixed,
        r1: Result<Point<Fixed>, Failure>,
        r2: Result<Point<Fixed>, Failure>,
    )
        requires
            single_valued(answers),
            self.cg_is(answers, w_dg, n_z, r1),
            self.cg_is(answers, w_dg, n_z, r2),
        ensures
            r1 == r2,
    ;
}

} // verus!
