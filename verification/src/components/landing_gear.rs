//! The landing gear as a group of its own.
use vstd::prelude::*;
use crate::components::Component;
use crate::components::balance::Balance;
use crate::components::evaluation::Answers;
use crate::components::evaluation::accepts_all;
use crate::components::evaluation::answers_of;
use crate::components::formula::Formula;
use crate::components::fuselage::MainLandingGear;
use crate::components::fuselage::NoseLandingGear;
use crate::components::group::group_balance;
use crate::components::group::group_balances;
use crate::components::group::group_centres;
use crate::components::group::group_cg;
use crate::components::group::group_moment;
use crate::components::group::group_moments;
use crate::components::group::group_weighs;
use crate::components::group::group_weight;
use crate::components::group::totals;
use crate::components::laws::lemma_group_cg_is_pure;
use crate::components::laws::lemma_group_weight_is_pure;
use crate::components::member::Member;
use crate::components::member::MemberView;
use crate::components::member::member_views;
use crate::failure::Failure;
use crate::failure::Part;
use crate::params::Params;
use crate::utils::fixed::Fixed;
use crate::utils::point::Point;
use crate::utils::weight::Weight;

verus! {

/// The landing gear: main gear and nose gear.
#[derive(Clone, Copy, Debug)]
pub struct LandingGear {
    pub main: MainLandingGear,
    pub nose: NoseLandingGear,
}

impl LandingGear {
    /// The parts of the group in the order in which they are added up.
    pub open spec fn members_law(&self, w_dg: Fixed, n_z: Fixed) -> Seq<MemberView> {
        seq![
            self.main.member_law(w_dg, n_z),
            self.nose.member_law(w_dg, n_z),
        ]
    }

    /// The parts of the group in the order in which they are added up.
    pub fn members(&self, w_dg: Fixed, n_z: Fixed) -> (ms: Vec<Member>)
        ensures
            member_views(ms@) == self.members_law(w_dg, n_z),
    {
        let ms = vec![
            self.main.member(w_dg, n_z),
            self.nose.member(w_dg, n_z),
        ];
        assert(member_views(ms@) =~= self.members_law(w_dg, n_z));
        ms
    }

    /// The weight of the group and its moments about the three axes. Fails
    /// with the failure of the first part that has no weight or no centre of
    /// gravity.
    pub fn balance<F: Fn(&Formula) -> Option<Fixed>>(
        &self,
        w_dg: Fixed,
        n_z: Fixed,
        eval: &F,
    ) -> (r: Result<Balance, Failure>)
        requires
            accepts_all(*eval),
        ensures
            group_balances(answers_of(*eval), self.members_law(w_dg, n_z), Part::LandingGear, totals(r)),
    {
        group_balance(&self.members(w_dg, n_z), Part::LandingGear, eval)
    }

    /// The moments of the group about the three axes: the sum, over its parts,
    /// of position times weight.
    pub fn pos_times_weight<F: Fn(&Formula) -> Option<Fixed>>(
        &self,
        w_dg: Fixed,
        n_z: Fixed,
        eval: &F,
    ) -> (r: Result<Point<i128>, Failure>)
        requires
            accepts_all(*eval),
        ensures
            group_moments(answers_of(*eval), self.members_law(w_dg, n_z), Part::LandingGear, r),
    {
        group_moment(&self.members(w_dg, n_z), Part::LandingGear, eval)
    }
}

impl Component for LandingGear {
    /// The group as `table` describes it.
    open spec fn from_table(table: Map<Seq<char>, Fixed>) -> LandingGear {
        LandingGear {
            main: MainLandingGear::from_table(table),
            nose: NoseLandingGear::from_table(table),
        }
    }

    /// Builds every part of the group from `params`.
    fn new(params: &Params) -> (r: Self) {
        Self {
            main: MainLandingGear::new(params),
            nose: NoseLandingGear::new(params),
        }
    }

    open spec fn weight_is(
        &self,
        answers: Answers,
        w_dg: Fixed,
        n_z: Fixed,
        r: Result<Weight, Failure>,
    ) -> bool {
        group_weighs(answers, self.members_law(w_dg, n_z), Part::LandingGear, r)
    }

    /// The weight of the group: the sum of the weights of its parts. Fails
    /// with the failure of the first part that has no weight.
    fn weight<F: Fn(&Formula) -> Option<Fixed>>(
        &self,
        w_dg: Fixed,
        n_z: Fixed,
        eval: &F,
    ) -> (r: Result<Weight, Failure>)
    {
        group_weight(&self.members(w_dg, n_z), Part::LandingGear, eval)
    }

    proof fn lemma_weight_is_pure(
        &self,
        answers: Answers,
        w_dg: Fixed,
        n_z: Fixed,
        r1: Result<Weight, Failure>,
        r2: Result<Weight, Failure>,
    ) {
        lemma_group_weight_is_pure(answers, self.members_law(w_dg, n_z), Part::LandingGear, r1, r2);
    }

    open spec fn cg_is(
        &self,
        answers: Answers,
        w_dg: Fixed,
        n_z: Fixed,
        r: Result<Point<Fixed>, Failure>,
    ) -> bool {
        group_centres(answers, self.members_law(w_dg, n_z), Part::LandingGear, r)
    }

    /// The centre of gravity of the group: its moments divided by its weight.
    /// Fails as the balance does, and as invalid geometry where the group
    /// weighs nothing.
    fn cg<F: Fn(&Formula) -> Option<Fixed>>(
        &self,
        w_dg: Fixed,
        n_z: Fixed,
        eval: &F,
    ) -> (r: Result<Point<Fixed>, Failure>)
    {
        group_cg(&self.members(w_dg, n_z), Part::LandingGear, eval)
    }

    proof fn lemma_cg_is_pure(
        &self,
        answers: Answers,
        w_dg: Fixed,
        n_z: Fixed,
        r1: Result<Point<Fixed>, Failure>,
        r2: Result<Point<Fixed>, Failure>,
    ) {
        lemma_group_cg_is_pure(answers, self.members_law(w_dg, n_z), Part::LandingGear, r1, r2);
    }
}

} // verus!
