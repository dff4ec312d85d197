//! The systems as a group of their own.
use vstd::prelude::*;
use crate::components::Component;
use crate::components::balance::Balance;
use crate::components::evaluation::Answers;
use crate::components::evaluation::accepts_all;
use crate::components::evaluation::answers_of;
use crate::components::formula::Formula;
use crate::components::fuselage::AirConditioning;
use crate::components::fuselage::AntiIcing;
use crate::components::fuselage::Avionics;
use crate::components::fuselage::ElectricalSystems;
use crate::components::fuselage::FlightControls;
use crate::components::fuselage::Furnishing;
use crate::components::fuselage::HandlingGear;
use crate::components::fuselage::HydrolicSystem;
use crate::components::fuselage::InstalledApu;
use crate::components::fuselage::Instruments;
use crate::components::group::group_balance;
use crate::components::group::group_balances;
use crate::components::group::group_centres;
use crate::components::group::group_cg;
use crate::components::group::group_moment;
use crate::components::group::group_moments;
use crate::components::group::group_weighs;
use crate::components::group::group_weight;
use crate::components::group::totals;
use crate::components::laws::lemma_group_cg_is_pure;
use crate::components::laws::lemma_group_weight_is_pure;
use crate::components::member::Member;
use crate::components::member::MemberView;
use crate::components::member::member_views;
use crate::failure::Failure;
use crate::failure::Part;
use crate::params::Params;
use crate::utils::fixed::Fixed;
use crate::utils::point::Point;
use crate::utils::weight::Weight;

verus! {

/// The systems of the aircraft.
#[derive(Clone, Copy, Debug)]
pub struct Systems {
    pub flight_controls: FlightControls,
    pub installed_apu: InstalledApu,
    pub instruments: Instruments,
    pub hydrolic_system: HydrolicSystem,
    pub electrical_systems: ElectricalSystems,
    pub avionics: Avionics,
    pub furnishing: Furnishing,
    pub air_conditioning: AirConditioning,
    pub anti_icing: AntiIcing,
    pub handling_gear: HandlingGear,
}

impl Systems {
    /// The parts of the group in the order in which they are added up.
    pub open spec fn members_law(&self, w_dg: Fixed, n_z: Fixed) -> Seq<MemberView> {
        seq![
            self.flight_controls.member_law(w_dg, n_z),
            self.installed_apu.member_law(w_dg, n_z),
            self.instruments.member_law(w_dg, n_z),
            self.hydrolic_system.member_law(w_dg, n_z),
            self.electrical_systems.member_law(w_dg, n_z),
            self.avionics.member_law(w_dg, n_z),
            self.furnishing.member_law(w_dg, n_z),
            self.air_conditioning.member_law(w_dg, n_z),
            self.anti_icing.member_law(w_dg, n_z),
            self.handling_gear.member_law(w_dg, n_z),
        ]
    }

    /// The parts of the group in the order in which they are added up.
    pub fn members(&self, w_dg: Fixed, n_z: Fixed) -> (ms: Vec<Member>)
        ensures
            member_views(ms@) == self.members_law(w_dg, n_z),
    {
        let ms = vec![
            self.flight_controls.member(w_dg, n_z),
            self.installed_apu.member(w_dg, n_z),
            self.instruments.member(w_dg, n_z),
            self.hydrolic_system.member(w_dg, n_z),
            self.electrical_systems.member(w_dg, n_z),
            self.avionics.member(w_dg, n_z),
            self.furnishing.member(w_dg, n_z),
            self.air_conditioning.member(w_dg, n_z),
            self.anti_icing.member(w_dg, n_z),
            self.handling_gear.member(w_dg, n_z),
        ];
        assert(member_views(ms@) =~= self.members_law(w_dg, n_z));
        ms
    }

    /// The weight of the group and its moments about the three axes. Fails
    /// with the failure of the first part that has no weight or no centre of
    /// gravity.
    pub fn balance<F: Fn(&Formula) -> Option<Fixed>>(
        &self,
        w_dg: Fixed,
        n_z: Fixed,
        eval: &F,
    ) -> (r: Result<Balance, Failure>)
        requires
            accepts_all(*eval),
        ensures
            group_balances(answers_of(*eval), self.members_law(w_dg, n_z), Part::Systems, totals(r)),
    {
        group_balance(&self.members(w_dg, n_z), Part::Systems, eval)
    }

    /// The moments of the group about the three axes: the sum, over its parts,
    /// of position times weight.
    pub fn pos_times_weight<F: Fn(&Formula) -> Option<Fixed>>(
        &self,
        w_dg: Fixed,
        n_z: Fixed,
        eval: &F,
    ) -> (r: Result<Point<i128>, Failure>)
        requires
            accepts_all(*eval),
        ensures
            group_moments(answers_of(*eval), self.members_law(w_dg, n_z), Part::Systems, r),
    {
        group_moment(&self.members(w_dg, n_z), Part::Systems, eval)
    }
}

impl Component for Systems {
    /// The group as `table` describes it.
    open spec fn from_table(table: Map<Seq<char>, Fixed>) -> Systems {
        Systems {
            flight_controls: FlightControls::from_table(table),
            installed_apu: InstalledApu::from_table(table),
            instruments: Instruments::from_table(table),
            hydrolic_system: HydrolicSystem::from_table(table),
            electrical_systems: ElectricalSystems::from_table(table),
            avionics: Avionics::from_table(table),
            furnishing: Furnishing::from_table(table),
            air_conditioning: AirConditioning::from_table(table),
            anti_icing: AntiIcing::from_table(table),
            handling_gear: HandlingGear::from_table(table),
        }
    }

    /// Builds every part of the group from `params`.
    fn new(params: &Params) -> (r: Self) {
        Self {
            flight_controls: FlightControls::new(params),
            installed_apu: InstalledApu::new(params),
            instruments: Instruments::new(params),
            hydrolic_system: HydrolicSystem::new(params),
            electrical_systems: ElectricalSystems::new(params),
            avionics: Avionics::new(params),
            furnishing: Furnishing::new(params),
            air_conditioning: AirConditioning::new(params),
            anti_icing: AntiIcing::new(params),
            handling_gear: HandlingGear::new(params),
        }
    }

    open spec fn weight_is(
        &self,
        answers: Answers,
        w_dg: Fixed,
        n_z: Fixed,
        r: Result<Weight, Failure>,
    ) -> bool {
        group_weighs(answers, self.members_law(w_dg, n_z), Part::Systems, r)
    }

    /// The weight of the group: the sum of the weights of its parts. Fails
    /// with the failure of the first part that has no weight.
    fn weight<F: Fn(&Formula) -> Option<Fixed>>(
        &self,
        w_dg: Fixed,
        n_z: Fixed,
        eval: &F,
    ) -> (r: Result<Weight, Failure>)
    {
        group_weight(&self.members(w_dg, n_z), Part::Systems, eval)
    }

    proof fn lemma_weight_is_pure(
        &self,
        answers: Answers,
        w_dg: Fixed,
        n_z: Fixed,
        r1: Result<Weight, Failure>,
        r2: Result<Weight, Failure>,
    ) {
        lemma_group_weight_is_pure(answers, self.members_law(w_dg, n_z), Part::Systems, r1, r2);
    }

    open spec fn cg_is(
        &self,
        answers: Answers,
        w_dg: Fixed,
        n_z: Fixed,
        r: Result<Point<Fixed>, Failure>,
    ) -> bool {
        group_centres(answers, self.members_law(w_dg, n_z), Part::Systems, r)
    }

    /// The centre of gravity of the group: its moments divided by its weight.
    /// Fails as the balance does, and as invalid geometry where the group
    /// weighs nothing.
    fn cg<F: Fn(&Formula) -> Option<Fixed>>(
        &self,
        w_dg: Fixed,
        n_z: Fixed,
        eval: &F,
    ) -> (r: Result<Point<Fixed>, Failure>)
    {
        group_cg(&self.members(w_dg, n_z), Part::Systems, eval)
    }

    proof fn lemma_cg_is_pure(
        &self,
        answers: Answers,
        w_dg: Fixed,
        n_z: Fixed,
        r1: Result<Point<Fixed>, Failure>,
        r2: Result<Point<Fixed>, Failure>,
    ) {
        lemma_group_cg_is_pure(answers, self.members_law(w_dg, n_z), Part::Systems, r1, r2);
    }
}

} // verus!
