//! The fuselage group.
use vstd::prelude::*;
use crate::components::Component;
use crate::components::balance::Balance;
use crate::components::evaluation::Answers;
use crate::components::evaluation::accepts_all;
use crate::components::evaluation::answers_of;
use crate::components::evaluation::lemma_polynomial_position;
use crate::components::evaluation::lemma_polynomial_weight;
use crate::components::evaluation::locate;
use crate::components::evaluation::locates;
use crate::components::evaluation::settled_position;
use crate::components::evaluation::settled_weight;
use crate::components::evaluation::weigh;
use crate::components::evaluation::weighs;
use crate::components::formula::Factor;
use crate::components::formula::Formula;
use crate::components::formula::Term;
use crate::components::formula::TermView;
use crate::components::formula::constant;
use crate::components::formula::lemma_constant;
use crate::components::formula::polynomial;
use crate::components::formula::polynomial_value;
use crate::components::formula::power;
use crate::components::formula::term;
use crate::components::formula::times;
use crate::components::group::group_balance;
use crate::components::group::group_balances;
use crate::components::group::group_centres;
use crate::components::group::group_cg;
use crate::components::group::group_moment;
use crate::components::group::group_moments;
use crate::components::group::group_weighs;
use crate::components::group::group_weight;
use crate::components::group::totals;
use crate::components::laws::lemma_cg_is_pure;
use crate::components::laws::lemma_group_cg_is_pure;
use crate::components::laws::lemma_group_weight_is_pure;
use crate::components::laws::lemma_weight_is_pure;
use crate::components::member::Member;
use crate::components::member::MemberView;
use crate::components::member::absent;
use crate::components::member::at_origin;
use crate::components::member::law;
use crate::components::member::member_views;
use crate::components::member::need;
use crate::components::member::origin;
use crate::components::member::place_law;
use crate::failure::Failure;
use crate::failure::Part;
use crate::params::Params;
use crate::params::lookup;
use crate::utils::fixed::Fixed;
use crate::utils::point::Point;
use crate::utils::weight::Weight;

verus! {

/// The fuselage group: the fuselage structure, the landing gear and the systems.
#[derive(Clone, Copy, Debug)]
pub struct Fuselage {
    pub fuselage_structure: FuselageStructure,
    pub hydrolic_system: HydrolicSystem,
    pub main_landing_gear: MainLandingGear,
    pub nose_landing_gear: NoseLandingGear,
    pub furnishing: Furnishing,
    pub air_conditioning: AirConditioning,
    pub electrical_systems: ElectricalSystems,
    pub instruments: Instruments,
    pub avionics: Avionics,
    pub flight_controls: FlightControls,
    pub installed_apu: InstalledApu,
    pub anti_icing: AntiIcing,
    pub handling_gear: HandlingGear,
}

impl Fuselage {
    /// The parts of the group in the order in which they are added up.
    pub open spec fn members_law(&self, w_dg: Fixed, n_z: Fixed) -> Seq<MemberView> {
        seq![
            self.fuselage_structure.member_law(w_dg, n_z),
            self.hydrolic_system.member_law(w_dg, n_z),
            self.main_landing_gear.member_law(w_dg, n_z),
            self.nose_landing_gear.member_law(w_dg, n_z),
            self.furnishing.member_law(w_dg, n_z),
            self.air_conditioning.member_law(w_dg, n_z),
            self.electrical_systems.member_law(w_dg, n_z),
            self.instruments.member_law(w_dg, n_z),
            self.avionics.member_law(w_dg, n_z),
            self.flight_controls.member_law(w_dg, n_z),
            self.installed_apu.member_law(w_dg, n_z),
            self.anti_icing.member_law(w_dg, n_z),
            self.handling_gear.member_law(w_dg, n_z),
        ]
    }

    /// The parts of the group in the order in which they are added up.
    pub fn members(&self, w_dg: Fixed, n_z: Fixed) -> (ms: Vec<Member>)
        ensures
            member_views(ms@) == self.members_law(w_dg, n_z),
    {
        let ms = vec![
            self.fuselage_structure.member(w_dg, n_z),
            self.hydrolic_system.member(w_dg, n_z),
            self.main_landing_gear.member(w_dg, n_z),
            self.nose_landing_gear.member(w_dg, n_z),
            self.furnishing.member(w_dg, n_z),
            self.air_conditioning.member(w_dg, n_z),
            self.electrical_systems.member(w_dg, n_z),
            self.instruments.member(w_dg, n_z),
            self.avionics.member(w_dg, n_z),
            self.flight_controls.member(w_dg, n_z),
            self.installed_apu.member(w_dg, n_z),
            self.anti_icing.member(w_dg, n_z),
            self.handling_gear.member(w_dg, n_z),
        ];
        assert(member_views(ms@) =~= self.members_law(w_dg, n_z));
        ms
    }

    /// The weight of the group and its moments about the three axes. Fails
    /// with the failure of the first part that has no weight or no centre of
    /// gravity.
    pub fn balance<F: Fn(&Formula) -> Option<Fixed>>(
        &self,
        w_dg: Fixed,
        n_z: Fixed,
        eval: &F,
    ) -> (r: Result<Balance, Failure>)
        requires
            accepts_all(*eval),
        ensures
            group_balances(answers_of(*eval), self.members_law(w_dg, n_z), Part::Fuselage, totals(r)),
    {
        group_balance(&self.members(w_dg, n_z), Part::Fuselage, eval)
    }

    /// The moments of the group about the three axes: the sum, over its parts,
    /// of position times weight.
    pub fn pos_times_weight<F: Fn(&Formula) -> Option<Fixed>>(
        &self,
        w_dg: Fixed,
        n_z: Fixed,
        eval: &F,
    ) -> (r: Result<Point<i128>, Failure>)
        requires
            accepts_all(*eval),
        ensures
            group_moments(answers_of(*eval), self.members_law(w_dg, n_z), Part::Fuselage, r),
    {
        group_moment(&self.members(w_dg, n_z), Part::Fuselage, eval)
    }
}

impl Component for Fuselage {
    /// The group as `table` describes it.
    open spec fn from_table(table: Map<Seq<char>, Fixed>) -> Fuselage {
        Fuselage {
            fuselage_structure: FuselageStructure::from_table(table),
            hydrolic_system: HydrolicSystem::from_table(table),
            main_landing_gear: MainLandingGear::from_table(table),
            nose_landing_gear: NoseLandingGear::from_table(table),
            furnishing: Furnishing::from_table(table),
            air_conditioning: AirConditioning::from_table(table),
            electrical_systems: ElectricalSystems::from_table(table),
            instruments: Instruments::from_table(table),
            avionics: Avionics::from_table(table),
            flight_controls: FlightControls::from_table(table),
            installed_apu: InstalledApu::from_table(table),
            anti_icing: AntiIcing::from_table(table),
            handling_gear: HandlingGear::from_table(table),
        }
    }

    /// Builds every part of the group from `params`.
    fn new(params: &Params) -> (r: Self) {
        Self {
            fuselage_structure: FuselageStructure::new(params),
            hydrolic_system: HydrolicSystem::new(params),
            main_landing_gear: MainLandingGear::new(params),
            nose_landing_gear: NoseLandingGear::new(params),
            furnishing: Furnishing::new(params),
            air_conditioning: AirConditioning::new(params),
            electrical_systems: ElectricalSystems::new(params),
            instruments: Instruments::new(params),
            avionics: Avionics::new(params),
            flight_controls: FlightControls::new(params),
            installed_apu: InstalledApu::new(params),
            anti_icing: AntiIcing::new(params),
            handling_gear: HandlingGear::new(params),
        }
    }

    open spec fn weight_is(
        &self,
        answers: Answers,
        w_dg: Fixed,
        n_z: Fixed,
        r: Result<Weight, Failure>,
    ) -> bool {
        group_weighs(answers, self.members_law(w_dg, n_z), Part::Fuselage, r)
    }

    /// The weight of the group: the sum of the weights of its parts. Fails
    /// with the failure of the first part that has no weight.
    fn weight<F: Fn(&Formula) -> Option<Fixed>>(
        &self,
        w_dg: Fixed,
        n_z: Fixed,
        eval: &F,
    ) -> (r: Result<Weight, Failure>)
    {
        group_weight(&self.members(w_dg, n_z), Part::Fuselage, eval)
    }

    proof fn lemma_weight_is_pure(
        &self,
        answers: Answers,
        w_dg: Fixed,
        n_z: Fixed,
        r1: Result<Weight, Failure>,
        r2: Result<Weight, Failure>,
    ) {
        lemma_group_weight_is_pure(answers, self.members_law(w_dg, n_z), Part::Fuselage, r1, r2);
    }

    open spec fn cg_is(
        &self,
        answers: Answers,
        w_dg: Fixed,
        n_z: Fixed,
        r: Result<Point<Fixed>, Failure>,
    ) -> bool {
        group_centres(answers, self.members_law(w_dg, n_z), Part::Fuselage, r)
    }

    /// The centre of gravity of the group: its moments divided by its weight.
    /// Fails as the balance does, and as invalid geometry where the group
    /// weighs nothing.
    fn cg<F: Fn(&Formula) -> Option<Fixed>>(
        &self,
        w_dg: Fixed,
        n_z: Fixed,
        eval: &F,
    ) -> (r: Result<Point<Fixed>, Failure>)
    {
        group_cg(&self.members(w_dg, n_z), Part::Fuselage, eval)
    }

    proof fn lemma_cg_is_pure(
        &self,
        answers: Answers,
        w_dg: Fixed,
        n_z: Fixed,
        r1: Result<Point<Fixed>, Failure>,
        r2: Result<Point<Fixed>, Failure>,
    ) {
        lemma_group_cg_is_pure(answers, self.members_law(w_dg, n_z), Part::Fuselage, r1, r2);
    }
}

/// The structure of the fuselage.
#[derive(Clone, Copy, Debug)]
pub struct FuselageStructure {
    /// 1.0 without a cargo door, 1.06 with one side door, 1.12 with two side
    /// doors or an aft clamshell door, 1.25 with both.
    pub k_door: Option<Fixed>,
    /// 1.12 for landing gear mounted on the fuselage, 1.0 otherwise.
    pub k_lg: Option<Fixed>,
    /// Structural length of the fuselage in ft.
    pub l: Option<Fixed>,
    /// Wetted area of the fuselage in ft^2.
    pub s_f: Option<Fixed>,
    /// Wing sweep factor, 0.75 ((1 + 2 lambda)/(1 + lambda)) (B_w tan(sweep) /
    /// L).
    pub k_ws: Option<Fixed>,
    /// Largest diameter of the fuselage in ft.
    pub d: Option<Fixed>,
    /// Centre of gravity of the fuselage as a fraction of its length from the
    /// nose.
    pub pos_cg_f: Option<Fixed>,
}

impl FuselageStructure {
    /// The weight in lb for the design gross weight `w_dg` (`W`, in lb) and the
    /// ultimate load factor `n_z` (`Nz`):
    ///
    /// `0.3280 K_door K_lg (W Nz)^0.5 L^0.25 S_f^0.302 (1 + K_ws)^0.04 (L/D)^0.1`
    ///
    /// The power of the product `W Nz` is stated as the product of the powers.
    /// Fails with the first of its inputs that is absent.
    /// Else it is out of range where `1 + k_ws` cannot be held.
    /// Else it is invalid geometry where `d` is not positive.
    pub open spec fn weight_law(&self, w_dg: Fixed, n_z: Fixed) -> Result<Seq<TermView>, Failure> {
        if self.k_door is None {
            absent(Part::FuselageStructure, "k_door")
        } else if self.k_lg is None {
            absent(Part::FuselageStructure, "k_lg")
        } else if self.l is None {
            absent(Part::FuselageStructure, "l")
        } else if self.s_f is None {
            absent(Part::FuselageStructure, "s_f")
        } else if self.k_ws is None {
            absent(Part::FuselageStructure, "k_ws")
        } else if self.d is None {
            absent(Part::FuselageStructure, "d")
        } else {
            let k_door = self.k_door.unwrap();
            let k_lg = self.k_lg.unwrap();
            let l = self.l.unwrap();
            let s_f = self.s_f.unwrap();
            let k_ws = self.k_ws.unwrap();
            let d = self.d.unwrap();
            if Fixed::sum(Fixed { raw: 1_000_000 }, k_ws) is None {
                Err(Failure::OutOfRange { part: Part::FuselageStructure })
            } else {
                let sweep_factor = Fixed::sum(Fixed { raw: 1_000_000 }, k_ws).unwrap();
                if !(d.raw > 0) {
                    Err(Failure::InvalidGeometry { part: Part::FuselageStructure })
                } else {
                    Ok(
                        seq![
                            term(
                                328_000,
                                seq![
                                    times(k_door), times(k_lg), power(w_dg, 500_000),
                                    power(n_z, 500_000), power(l, 250_000), power(s_f, 302_000),
                                    power(sweep_factor, 40_000), power(l, 100_000),
                                    power(d, -100_000),
                                ],
                            ),
                        ],
                    )
                }
            }
        }
    }

    /// The formula of the weight, as [`Self::weight_law`] states it.
    #[allow(unused_variables)]
    pub fn weight_formula(&self, w_dg: Fixed, n_z: Fixed) -> (r: Result<Formula, Failure>)
        ensures
            law(r) == self.weight_law(w_dg, n_z),
    {
        let k_door = need(self.k_door, Part::FuselageStructure, "k_door")?;
        let k_lg = need(self.k_lg, Part::FuselageStructure, "k_lg")?;
        let l = need(self.l, Part::FuselageStructure, "l")?;
        let s_f = need(self.s_f, Part::FuselageStructure, "s_f")?;
        let k_ws = need(self.k_ws, Part::FuselageStructure, "k_ws")?;
        let d = need(self.d, Part::FuselageStructure, "d")?;
        let sweep_factor = match (Fixed { raw: 1_000_000 }).checked_add(k_ws) {
            Some(v) => v,
            None => {
                return Err(Failure::OutOfRange { part: Part::FuselageStructure });
            },
        };
        if !(d.raw > 0) {
            return Err(Failure::InvalidGeometry { part: Part::FuselageStructure });
        }
        let formula_factors = vec![
            Factor::times(k_door), Factor::times(k_lg), Factor::power(w_dg, 500_000),
            Factor::power(n_z, 500_000), Factor::power(l, 250_000), Factor::power(s_f, 302_000),
            Factor::power(sweep_factor, 40_000), Factor::power(l, 100_000),
            Factor::power(d, -100_000),
        ];
        assert(formula_factors@ =~= self.weight_law(w_dg, n_z)->Ok_0[0].factors);
        let formula = Formula::single(328_000, formula_factors);
        assert(formula@ =~~= self.weight_law(w_dg, n_z)->Ok_0);
        Ok(formula)
    }

    /// The centre of gravity in ft.
    ///
    /// The fuselage acts on its axis at the fraction `pos_cg_f` of its length:
    /// `x = pos_cg_f L`, `y = z = 0`.
    /// Fails with the first of its inputs that is absent.
    pub open spec fn cg_law(&self) -> Result<Point<Seq<TermView>>, Failure> {
        if self.pos_cg_f is None {
            absent(Part::FuselageStructure, "pos_cg_f")
        } else if self.l is None {
            absent(Part::FuselageStructure, "l")
        } else {
            let pos_cg_f = self.pos_cg_f.unwrap();
            let l = self.l.unwrap();
            Ok(
                Point {
                    x: seq![
                        term(1_000_000, seq![times(pos_cg_f), times(l)]),
                    ],
                    y: constant(Fixed { raw: 0 }),
                    z: constant(Fixed { raw: 0 }),
                },
            )
        }
    }

    /// The formulas of the centre of gravity, as [`Self::cg_law`] states them.
    pub fn cg_formula(&self) -> (r: Result<Point<Formula>, Failure>)
        ensures
            place_law(r) == self.cg_law(),
    {
        let pos_cg_f = need(self.pos_cg_f, Part::FuselageStructure, "pos_cg_f")?;
        let l = need(self.l, Part::FuselageStructure, "l")?;
        let x_factors = vec![Factor::times(pos_cg_f), Factor::times(l)];
        assert(x_factors@ =~= self.cg_law()->Ok_0.x[0].factors);
        let x = Formula::single(1_000_000, x_factors);
        assert(x@ =~~= self.cg_law()->Ok_0.x);
        let y = Formula::constant(Fixed { raw: 0 });
        let z = Formula::constant(Fixed { raw: 0 });
        Ok(Point::new(x, y, z))
    }

    /// The part as a member of a group.
    pub open spec fn member_law(&self, w_dg: Fixed, n_z: Fixed) -> MemberView {
        MemberView {
            part: Part::FuselageStructure,
            origin: at_origin(),
            weight: self.weight_law(w_dg, n_z),
            position: self.cg_law(),
        }
    }

    /// The part as a member of a group.
    pub fn member(&self, w_dg: Fixed, n_z: Fixed) -> (m: Member)
        ensures
            m@ == self.member_law(w_dg, n_z),
    {
        Member {
            part: Part::FuselageStructure,
            origin: origin(),
            weight: self.weight_formula(w_dg, n_z),
            position: self.cg_formula(),
        }
    }
}

impl Component for FuselageStructure {
    /// The part as `table` describes it: each field is the value under its
    /// symbol, or absent where the table has none.
    open spec fn from_table(table: Map<Seq<char>, Fixed>) -> FuselageStructure {
        FuselageStructure {
            k_door: lookup(table, "k_door"@),
            k_lg: lookup(table, "k_lg"@),
            l: lookup(table, "l"@),
            s_f: lookup(table, "s_f"@),
            k_ws: lookup(table, "k_ws"@),
            d: lookup(table, "d"@),
            pos_cg_f: lookup(table, "pos_cg_f"@),
        }
    }

    /// Takes from `params` what the part needs. This never fails: a value
    /// that is absent is missed only when it is used.
    fn new(params: &Params) -> (r: Self) {
        Self {
            k_door: params.get("k_door"),
            k_lg: params.get("k_lg"),
            l: params.get("l"),
            s_f: params.get("s_f"),
            k_ws: params.get("k_ws"),
            d: params.get("d"),
            pos_cg_f: params.get("pos_cg_f"),
        }
    }

    open spec fn weight_is(
        &self,
        answers: Answers,
        w_dg: Fixed,
        n_z: Fixed,
        r: Result<Weight, Failure>,
    ) -> bool {
        weighs(answers, Part::FuselageStructure, self.weight_law(w_dg, n_z), r)
    }

    /// The weight of the part: the value that `eval` gives the formula of its
    /// weight, which must not be negative.
    fn weight<F: Fn(&Formula) -> Option<Fixed>>(
        &self,
        w_dg: Fixed,
        n_z: Fixed,
        eval: &F,
    ) -> (r: Result<Weight, Failure>)
    {
        weigh(Part::FuselageStructure, &self.weight_formula(w_dg, n_z), eval)
    }

    proof fn lemma_weight_is_pure(
        &self,
        answers: Answers,
        w_dg: Fixed,
        n_z: Fixed,
        r1: Result<Weight, Failure>,
        r2: Result<Weight, Failure>,
    ) {
        lemma_weight_is_pure(answers, Part::FuselageStructure, self.weight_law(w_dg, n_z), r1, r2);
    }

    open spec fn cg_is(
        &self,
        answers: Answers,
        w_dg: Fixed,
        n_z: Fixed,
        r: Result<Point<Fixed>, Failure>,
    ) -> bool {
        locates(answers, Part::FuselageStructure, at_origin(), self.cg_law(), r)
    }

    /// The centre of gravity of the part: the values of the formulas of its
    /// position, which are polynomials. Neither the two numbers nor the
    /// evaluator are used.
    #[allow(unused_variables)]
    fn cg<F: Fn(&Formula) -> Option<Fixed>>(
        &self,
        w_dg: Fixed,
        n_z: Fixed,
        eval: &F,
    ) -> (r: Result<Point<Fixed>, Failure>)
        ensures
            self.cg_law() matches Ok(p) ==> r == settled_position(
                Part::FuselageStructure,
                at_origin(),
                polynomial_value(p.x),
                polynomial_value(p.y),
                polynomial_value(p.z),
            ),
    {
        let r = locate(Part::FuselageStructure, origin(), &self.cg_formula(), eval);
        proof {
            if self.cg_law() is Ok {
                let p = self.cg_law()->Ok_0;
                assert(polynomial(p.x));
                lemma_constant(Fixed { raw: 0 });
                lemma_constant(Fixed { raw: 0 });
                lemma_polynomial_position(*eval, Part::FuselageStructure, at_origin(), p, r);
            }
        }
        r
    }

    proof fn lemma_cg_is_pure(
        &self,
        answers: Answers,
        w_dg: Fixed,
        n_z: Fixed,
        r1: Result<Point<Fixed>, Failure>,
        r2: Result<Point<Fixed>, Failure>,
    ) {
        lemma_cg_is_pure(answers, Part::FuselageStructure, at_origin(), self.cg_law(), r1, r2);
    }
}

/// The hydraulic system.
#[derive(Clone, Copy, Debug)]
pub struct HydrolicSystem {
    /// Number of functions performed by the controls.
    pub n_f: Option<Fixed>,
    /// Length of the fuselage in ft.
    pub l_f: Option<Fixed>,
    /// Wing span in ft.
    pub b_w: Option<Fixed>,
    /// Centre of gravity in ft.
    pub cg: Point<Option<Fixed>>,
}

impl HydrolicSystem {
    /// The weight in lb for the design gross weight `w_dg` (`W`, in lb) and the
    /// ultimate load factor `n_z` (`Nz`):
    ///
    /// `0.2673 N_f (L_f + B_w)^0.937`
    ///
    /// Fails with the first of its inputs that is absent.
    /// Else it is out of range where `l_f + b_w` cannot be held.
    pub open spec fn weight_law(&self, w_dg: Fixed, n_z: Fixed) -> Result<Seq<TermView>, Failure> {
        if self.n_f is None {
            absent(Part::HydrolicSystem, "n_f")
        } else if self.l_f is None {
            absent(Part::HydrolicSystem, "l_f")
        } else if self.b_w is None {
            absent(Part::HydrolicSystem, "b_w")
        } else {
            let n_f = self.n_f.unwrap();
            let l_f = self.l_f.unwrap();
            let b_w = self.b_w.unwrap();
            if Fixed::sum(l_f, b_w) is None {
                Err(Failure::OutOfRange { part: Part::HydrolicSystem })
            } else {
                let reach = Fixed::sum(l_f, b_w).unwrap();
                Ok(
                    seq![
                        term(267_300, seq![times(n_f), power(reach, 937_000)]),
                    ],
                )
            }
        }
    }

    /// The formula of the weight, as [`Self::weight_law`] states it.
    #[allow(unused_variables)]
    pub fn weight_formula(&self, w_dg: Fixed, n_z: Fixed) -> (r: Result<Formula, Failure>)
        ensures
            law(r) == self.weight_law(w_dg, n_z),
    {
        let n_f = need(self.n_f, Part::HydrolicSystem, "n_f")?;
        let l_f = need(self.l_f, Part::HydrolicSystem, "l_f")?;
        let b_w = need(self.b_w, Part::HydrolicSystem, "b_w")?;
        let reach = match l_f.checked_add(b_w) {
            Some(v) => v,
            None => {
                return Err(Failure::OutOfRange { part: Part::HydrolicSystem });
            },
        };
        let formula_factors = vec![Factor::times(n_f), Factor::power(reach, 937_000)];
        assert(formula_factors@ =~= self.weight_law(w_dg, n_z)->Ok_0[0].factors);
        let formula = Formula::single(267_300, formula_factors);
        assert(formula@ =~~= self.weight_law(w_dg, n_z)->Ok_0);
        Ok(formula)
    }

    /// The centre of gravity in ft, as it was given. Fails with the first of
    /// its coordinates that is absent.
    pub open spec fn cg_law(&self) -> Result<Point<Seq<TermView>>, Failure> {
        if self.cg.x is None {
            absent(Part::HydrolicSystem, "x_cg_hydrolic_system")
        } else if self.cg.y is None {
            absent(Part::HydrolicSystem, "y_cg_hydrolic_system")
        } else if self.cg.z is None {
            absent(Part::HydrolicSystem, "z_cg_hydrolic_system")
        } else {
            let x_cg_hydrolic_system = self.cg.x.unwrap();
            let y_cg_hydrolic_system = self.cg.y.unwrap();
            let z_cg_hydrolic_system = self.cg.z.unwrap();
            Ok(
                Point {
                    x: constant(x_cg_hydrolic_system),
                    y: constant(y_cg_hydrolic_system),
                    z: constant(z_cg_hydrolic_system),
                },
            )
        }
    }

    /// The formulas of the centre of gravity, as [`Self::cg_law`] states them.
    pub fn cg_formula(&self) -> (r: Result<Point<Formula>, Failure>)
        ensures
            place_law(r) == self.cg_law(),
    {
        let x_cg_hydrolic_system = need(self.cg.x, Part::HydrolicSystem, "x_cg_hydrolic_system")?;
        let y_cg_hydrolic_system = need(self.cg.y, Part::HydrolicSystem, "y_cg_hydrolic_system")?;
        let z_cg_hydrolic_system = need(self.cg.z, Part::HydrolicSystem, "z_cg_hydrolic_system")?;
        Ok(
            Point::new(
                Formula::constant(x_cg_hydrolic_system),
                Formula::constant(y_cg_hydrolic_system),
                Formula::constant(z_cg_hydrolic_system),
            ),
        )
    }

    /// The part as a member of a group.
    pub open spec fn member_law(&self, w_dg: Fixed, n_z: Fixed) -> MemberView {
        MemberView {
            part: Part::HydrolicSystem,
            origin: at_origin(),
            weight: self.weight_law(w_dg, n_z),
            position: self.cg_law(),
        }
    }

    /// The part as a member of a group.
    pub fn member(&self, w_dg: Fixed, n_z: Fixed) -> (m: Member)
        ensures
            m@ == self.member_law(w_dg, n_z),
    {
        Member {
            part: Part::HydrolicSystem,
            origin: origin(),
            weight: self.weight_formula(w_dg, n_z),
            position: self.cg_formula(),
        }
    }
}

impl Component for HydrolicSystem {
    /// The part as `table` describes it: each field is the value under its
    /// symbol, or absent where the table has none.
    open spec fn from_table(table: Map<Seq<char>, Fixed>) -> HydrolicSystem {
        HydrolicSystem {
            n_f: lookup(table, "n_f"@),
            l_f: lookup(table, "l_f"@),
            b_w: lookup(table, "b_w"@),
            cg: Point {
                x: lookup(table, "x_cg_hydrolic_system"@),
                y: lookup(table, "y_cg_hydrolic_system"@),
                z: lookup(table, "z_cg_hydrolic_system"@),
            },
        }
    }

    /// Takes from `params` what the part needs. This never fails: a value
    /// that is absent is missed only when it is used.
    fn new(params: &Params) -> (r: Self) {
        Self {
            n_f: params.get("n_f"),
            l_f: params.get("l_f"),
            b_w: params.get("b_w"),
            cg: Point::new(
                params.get("x_cg_hydrolic_system"),
                params.get("y_cg_hydrolic_system"),
                params.get("z_cg_hydrolic_system"),
            ),
        }
    }

    open spec fn weight_is(
        &self,
        answers: Answers,
        w_dg: Fixed,
        n_z: Fixed,
        r: Result<Weight, Failure>,
    ) -> bool {
        weighs(answers, Part::HydrolicSystem, self.weight_law(w_dg, n_z), r)
    }

    /// The weight of the part: the value that `eval` gives the formula of its
    /// weight, which must not be negative.
    fn weight<F: Fn(&Formula) -> Option<Fixed>>(
        &self,
        w_dg: Fixed,
        n_z: Fixed,
        eval: &F,
    ) -> (r: Result<Weight, Failure>)
    {
        weigh(Part::HydrolicSystem, &self.weight_formula(w_dg, n_z), eval)
    }

    proof fn lemma_weight_is_pure(
        &self,
        answers: Answers,
        w_dg: Fixed,
        n_z: Fixed,
        r1: Result<Weight, Failure>,
        r2: Result<Weight, Failure>,
    ) {
        lemma_weight_is_pure(answers, Part::HydrolicSystem, self.weight_law(w_dg, n_z), r1, r2);
    }

    open spec fn cg_is(
        &self,
        answers: Answers,
        w_dg: Fixed,
        n_z: Fixed,
        r: Result<Point<Fixed>, Failure>,
    ) -> bool {
        locates(answers, Part::HydrolicSystem, at_origin(), self.cg_law(), r)
    }

    /// The centre of gravity of the part, as it was given. Neither the two
    /// numbers nor the evaluator are used.
    #[allow(unused_variables)]
    fn cg<F: Fn(&Formula) -> Option<Fixed>>(
        &self,
        w_dg: Fixed,
        n_z: Fixed,
        eval: &F,
    ) -> (r: Result<Point<Fixed>, Failure>)
        ensures
            self.cg_law() is Ok ==> r == Ok::<Point<Fixed>, Failure>(
                Point { x: self.cg.x.unwrap(), y: self.cg.y.unwrap(), z: self.cg.z.unwrap() },
            ),
    {
        let r = locate(Part::HydrolicSystem, origin(), &self.cg_formula(), eval);
        proof {
            if self.cg_law() is Ok {
                let p = self.cg_law()->Ok_0;
                lemma_constant(self.cg.x.unwrap());
                lemma_constant(self.cg.y.unwrap());
                lemma_constant(self.cg.z.unwrap());
                lemma_polynomial_position(*eval, Part::HydrolicSystem, at_origin(), p, r);
            }
        }
        r
    }

    proof fn lemma_cg_is_pure(
        &self,
        answers: Answers,
        w_dg: Fixed,
        n_z: Fixed,
        r1: Result<Point<Fixed>, Failure>,
        r2: Result<Point<Fixed>, Failure>,
    ) {
        lemma_cg_is_pure(answers, Part::HydrolicSystem, at_origin(), self.cg_law(), r1, r2);
    }
}

/// The main landing gear.
#[derive(Clone, Copy, Debug)]
pub struct MainLandingGear {
    /// Landing design gross weight in lb.
    pub w_l: Option<Fixed>,
    /// Ultimate landing load factor, 1.5 times that of the gear.
    pub n_l: Option<Fixed>,
    /// 1.126 for a kneeling main gear, 1.0 otherwise.
    pub k_mp: Option<Fixed>,
    /// Length of the main gear in inches.
    pub l_m: Option<Fixed>,
    /// Number of main wheels.
    pub n_mw: Option<Fixed>,
    /// Stall speed at landing in ft/s.
    pub v_s: Option<Fixed>,
    /// Number of shock struts of the main gear.
    pub n_mss: Option<Fixed>,
    /// Centre of gravity in ft.
    pub cg: Point<Option<Fixed>>,
}

impl MainLandingGear {
    /// The weight in lb for the design gross weight `w_dg` (`W`, in lb) and the
    /// ultimate load factor `n_z` (`Nz`):
    ///
    /// `0.0106 K_mp W_l^0.888 N_l^0.25 L_m^0.4 N_mw^0.321 V_s^0.1 / N_mss^0.5`
    ///
    /// Fails with the first of its inputs that is absent.
    /// Else it is invalid geometry where `n_mss` is not positive.
    pub open spec fn weight_law(&self, w_dg: Fixed, n_z: Fixed) -> Result<Seq<TermView>, Failure> {
        if self.w_l is None {
            absent(Part::MainLandingGear, "w_l")
        } else if self.n_l is None {
            absent(Part::MainLandingGear, "n_l")
        } else if self.k_mp is None {
            absent(Part::MainLandingGear, "k_mp")
        } else if self.l_m is None {
            absent(Part::MainLandingGear, "l_m")
        } else if self.n_mw is None {
            absent(Part::MainLandingGear, "n_mw")
        } else if self.v_s is None {
            absent(Part::MainLandingGear, "v_s")
        } else if self.n_mss is None {
            absent(Part::MainLandingGear, "n_mss")
        } else {
            let w_l = self.w_l.unwrap();
            let n_l = self.n_l.unwrap();
            let k_mp = self.k_mp.unwrap();
            let l_m = self.l_m.unwrap();
            let n_mw = self.n_mw.unwrap();
            let v_s = self.v_s.unwrap();
            let n_mss = self.n_mss.unwrap();
            if !(n_mss.raw > 0) {
                Err(Failure::InvalidGeometry { part: Part::MainLandingGear })
            } else {
                Ok(
                    seq![
                        term(
                            10_600,
                            seq![
                                times(k_mp), power(w_l, 888_000), power(n_l, 250_000),
                                power(l_m, 400_000), power(n_mw, 321_000), power(v_s, 100_000),
                                power(n_mss, -500_000),
                            ],
                        ),
                    ],
                )
            }
        }
    }

    /// The formula of the weight, as [`Self::weight_law`] states it.
    #[allow(unused_variables)]
    pub fn weight_formula(&self, w_dg: Fixed, n_z: Fixed) -> (r: Result<Formula, Failure>)
        ensures
            law(r) == self.weight_law(w_dg, n_z),
    {
        let w_l = need(self.w_l, Part::MainLandingGear, "w_l")?;
        let n_l = need(self.n_l, Part::MainLandingGear, "n_l")?;
        let k_mp = need(self.k_mp, Part::MainLandingGear, "k_mp")?;
        let l_m = need(self.l_m, Part::MainLandingGear, "l_m")?;
        let n_mw = need(self.n_mw, Part::MainLandingGear, "n_mw")?;
        let v_s = need(self.v_s, Part::MainLandingGear, "v_s")?;
        let n_mss = need(self.n_mss, Part::MainLandingGear, "n_mss")?;
        if !(n_mss.raw > 0) {
            return Err(Failure::InvalidGeometry { part: Part::MainLandingGear });
        }
        let formula_factors = vec![
            Factor::times(k_mp), Factor::power(w_l, 888_000), Factor::power(n_l, 250_000),
            Factor::power(l_m, 400_000), Factor::power(n_mw, 321_000),
            Factor::power(v_s, 100_000), Factor::power(n_mss, -500_000),
        ];
        assert(formula_factors@ =~= self.weight_law(w_dg, n_z)->Ok_0[0].factors);
        let formula = Formula::single(10_600, formula_factors);
        assert(formula@ =~~= self.weight_law(w_dg, n_z)->Ok_0);
        Ok(formula)
    }

    /// The centre of gravity in ft, as it was given. Fails with the first of
    /// its coordinates that is absent.
    pub open spec fn cg_law(&self) -> Result<Point<Seq<TermView>>, Failure> {
        if self.cg.x is None {
            absent(Part::MainLandingGear, "x_cg_main_landing_gear")
        } else if self.cg.y is None {
            absent(Part::MainLandingGear, "y_cg_main_landing_gear")
        } else if self.cg.z is None {
            absent(Part::MainLandingGear, "z_cg_main_landing_gear")
        } else {
            let x_cg_main_landing_gear = self.cg.x.unwrap();
            let y_cg_main_landing_gear = self.cg.y.unwrap();
            let z_cg_main_landing_gear = self.cg.z.unwrap();
            Ok(
                Point {
                    x: constant(x_cg_main_landing_gear),
                    y: constant(y_cg_main_landing_gear),
                    z: constant(z_cg_main_landing_gear),
                },
            )
        }
    }

    /// The formulas of the centre of gravity, as [`Self::cg_law`] states them.
    pub fn cg_formula(&self) -> (r: Result<Point<Formula>, Failure>)
        ensures
            place_law(r) == self.cg_law(),
    {
        let x_cg_main_landing_gear = need(self.cg.x, Part::MainLandingGear, "x_cg_main_landing_gear")?;
        let y_cg_main_landing_gear = need(self.cg.y, Part::MainLandingGear, "y_cg_main_landing_gear")?;
        let z_cg_main_landing_gear = need(self.cg.z, Part::MainLandingGear, "z_cg_main_landing_gear")?;
        Ok(
            Point::new(
                Formula::constant(x_cg_main_landing_gear),
                Formula::constant(y_cg_main_landing_gear),
                Formula::constant(z_cg_main_landing_gear),
            ),
        )
    }

    /// The part as a member of a group.
    pub open spec fn member_law(&self, w_dg: Fixed, n_z: Fixed) -> MemberView {
        MemberView {
            part: Part::MainLandingGear,
            origin: at_origin(),
            weight: self.weight_law(w_dg, n_z),
            position: self.cg_law(),
        }
    }

    /// The part as a member of a group.
    pub fn member(&self, w_dg: Fixed, n_z: Fixed) -> (m: Member)
        ensures
            m@ == self.member_law(w_dg, n_z),
    {
        Member {
            part: Part::MainLandingGear,
            origin: origin(),
            weight: self.weight_formula(w_dg, n_z),
            position: self.cg_formula(),
        }
    }
}

impl Component for MainLandingGear {
    /// The part as `table` describes it: each field is the value under its
    /// symbol, or absent where the table has none.
    open spec fn from_table(table: Map<Seq<char>, Fixed>) -> MainLandingGear {
        MainLandingGear {
            w_l: lookup(table, "w_l"@),
            n_l: lookup(table, "n_l"@),
            k_mp: lookup(table, "k_mp"@),
            l_m: lookup(table, "l_m"@),
            n_mw: lookup(table, "n_mw"@),
            v_s: lookup(table, "v_s"@),
            n_mss: lookup(table, "n_mss"@),
            cg: Point {
                x: lookup(table, "x_cg_main_landing_gear"@),
                y: lookup(table, "y_cg_main_landing_gear"@),
                z: lookup(table, "z_cg_main_landing_gear"@),
            },
        }
    }

    /// Takes from `params` what the part needs. This never fails: a value
    /// that is absent is missed only when it is used.
    fn new(params: &Params) -> (r: Self) {
        Self {
            w_l: params.get("w_l"),
            n_l: params.get("n_l"),
            k_mp: params.get("k_mp"),
            l_m: params.get("l_m"),
            n_mw: params.get("n_mw"),
            v_s: params.get("v_s"),
            n_mss: params.get("n_mss"),
            cg: Point::new(
                params.get("x_cg_main_landing_gear"),
                params.get("y_cg_main_landing_gear"),
                params.get("z_cg_main_landing_gear"),
            ),
        }
    }

    open spec fn weight_is(
        &self,
        answers: Answers,
        w_dg: Fixed,
        n_z: Fixed,
        r: Result<Weight, Failure>,
    ) -> bool {
        weighs(answers, Part::MainLandingGear, self.weight_law(w_dg, n_z), r)
    }

    /// The weight of the part: the value that `eval` gives the formula of its
    /// weight, which must not be negative.
    fn weight<F: Fn(&Formula) -> Option<Fixed>>(
        &self,
        w_dg: Fixed,
        n_z: Fixed,
        eval: &F,
    ) -> (r: Result<Weight, Failure>)
    {
        weigh(Part::MainLandingGear, &self.weight_formula(w_dg, n_z), eval)
    }

    proof fn lemma_weight_is_pure(
        &self,
        answers: Answers,
        w_dg: Fixed,
        n_z: Fixed,
        r1: Result<Weight, Failure>,
        r2: Result<Weight, Failure>,
    ) {
        lemma_weight_is_pure(answers, Part::MainLandingGear, self.weight_law(w_dg, n_z), r1, r2);
    }

    open spec fn cg_is(
        &self,
        answers: Answers,
        w_dg: Fixed,
        n_z: Fixed,
        r: Result<Point<Fixed>, Failure>,
    ) -> bool {
        locates(answers, Part::MainLandingGear, at_origin(), self.cg_law(), r)
    }

    /// The centre of gravity of the part, as it was given. Neither the two
    /// numbers nor the evaluator are used.
    #[allow(unused_variables)]
    fn cg<F: Fn(&Formula) -> Option<Fixed>>(
        &self,
        w_dg: Fixed,
        n_z: Fixed,
        eval: &F,
    ) -> (r: Result<Point<Fixed>, Failure>)
        ensures
            self.cg_law() is Ok ==> r == Ok::<Point<Fixed>, Failure>(
                Point { x: self.cg.x.unwrap(), y: self.cg.y.unwrap(), z: self.cg.z.unwrap() },
            ),
    {
        let r = locate(Part::MainLandingGear, origin(), &self.cg_formula(), eval);
        proof {
            if self.cg_law() is Ok {
                let p = self.cg_law()->Ok_0;
                lemma_constant(self.cg.x.unwrap());
                lemma_constant(self.cg.y.unwrap());
                lemma_constant(self.cg.z.unwrap());
                lemma_polynomial_position(*eval, Part::MainLandingGear, at_origin(), p, r);
            }
        }
        r
    }

    proof fn lemma_cg_is_pure(
        &self,
        answers: Answers,
        w_dg: Fixed,
        n_z: Fixed,
        r1: Result<Point<Fixed>, Failure>,
        r2: Result<Point<Fixed>, Failure>,
    ) {
        lemma_cg_is_pure(answers, Part::MainLandingGear, at_origin(), self.cg_law(), r1, r2);
    }
}

/// The nose landing gear.
#[derive(Clone, Copy, Debug)]
pub struct NoseLandingGear {
    /// Landing design gross weight in lb.
    pub w_l: Option<Fixed>,
    /// Ultimate landing load factor, 1.5 times that of the gear.
    pub n_l: Option<Fixed>,
    /// 1.15 for a kneeling nose gear, 1.0 otherwise.
    pub k_np: Option<Fixed>,
    /// Length of the nose gear in inches.
    pub l_n: Option<Fixed>,
    /// Number of nose wheels.
    pub n_nw: Option<Fixed>,
    /// Centre of gravity in ft.
    pub cg: Point<Option<Fixed>>,
}

impl NoseLandingGear {
    /// The weight in lb for the design gross weight `w_dg` (`W`, in lb) and the
    /// ultimate load factor `n_z` (`Nz`):
    ///
    /// `0.032 K_np W_l^0.646 N_l^0.2 L_n^0.5 N_nw^0.45`
    ///
    /// Fails with the first of its inputs that is absent.
    pub open spec fn weight_law(&self, w_dg: Fixed, n_z: Fixed) -> Result<Seq<TermView>, Failure> {
        if self.w_l is None {
            absent(Part::NoseLandingGear, "w_l")
        } else if self.n_l is None {
            absent(Part::NoseLandingGear, "n_l")
        } else if self.k_np is None {
            absent(Part::NoseLandingGear, "k_np")
        } else if self.l_n is None {
            absent(Part::NoseLandingGear, "l_n")
        } else if self.n_nw is None {
            absent(Part::NoseLandingGear, "n_nw")
        } else {
            let w_l = self.w_l.unwrap();
            let n_l = self.n_l.unwrap();
            let k_np = self.k_np.unwrap();
            let l_n = self.l_n.unwrap();
            let n_nw = self.n_nw.unwrap();
            Ok(
                seq![
                    term(
                        32_000,
                        seq![
                            times(k_np), power(w_l, 646_000), power(n_l, 200_000),
                            power(l_n, 500_000), power(n_nw, 450_000),
                        ],
                    ),
                ],
            )
        }
    }

    /// The formula of the weight, as [`Self::weight_law`] states it.
    #[allow(unused_variables)]
    pub fn weight_formula(&self, w_dg: Fixed, n_z: Fixed) -> (r: Result<Formula, Failure>)
        ensures
            law(r) == self.weight_law(w_dg, n_z),
    {
        let w_l = need(self.w_l, Part::NoseLandingGear, "w_l")?;
        let n_l = need(self.n_l, Part::NoseLandingGear, "n_l")?;
        let k_np = need(self.k_np, Part::NoseLandingGear, "k_np")?;
        let l_n = need(self.l_n, Part::NoseLandingGear, "l_n")?;
        let n_nw = need(self.n_nw, Part::NoseLandingGear, "n_nw")?;
        let formula_factors = vec![
            Factor::times(k_np), Factor::power(w_l, 646_000), Factor::power(n_l, 200_000),
            Factor::power(l_n, 500_000), Factor::power(n_nw, 450_000),
        ];
        assert(formula_factors@ =~= self.weight_law(w_dg, n_z)->Ok_0[0].factors);
        let formula = Formula::single(32_000, formula_factors);
        assert(formula@ =~~= self.weight_law(w_dg, n_z)->Ok_0);
        Ok(formula)
    }

    /// The centre of gravity in ft, as it was given. Fails with the first of
    /// its coordinates that is absent.
    pub open spec fn cg_law(&self) -> Result<Point<Seq<TermView>>, Failure> {
        if self.cg.x is None {
            absent(Part::NoseLandingGear, "x_cg_nose_landing_gear")
        } else if self.cg.y is None {
            absent(Part::NoseLandingGear, "y_cg_nose_landing_gear")
        } else if self.cg.z is None {
            absent(Part::NoseLandingGear, "z_cg_nose_landing_gear")
        } else {
            let x_cg_nose_landing_gear = self.cg.x.unwrap();
            let y_cg_nose_landing_gear = self.cg.y.unwrap();
            let z_cg_nose_landing_gear = self.cg.z.unwrap();
            Ok(
                Point {
                    x: constant(x_cg_nose_landing_gear),
                    y: constant(y_cg_nose_landing_gear),
                    z: constant(z_cg_nose_landing_gear),
                },
            )
        }
    }

    /// The formulas of the centre of gravity, as [`Self::cg_law`] states them.
    pub fn cg_formula(&self) -> (r: Result<Point<Formula>, Failure>)
        ensures
            place_law(r) == self.cg_law(),
    {
        let x_cg_nose_landing_gear = need(self.cg.x, Part::NoseLandingGear, "x_cg_nose_landing_gear")?;
        let y_cg_nose_landing_gear = need(self.cg.y, Part::NoseLandingGear, "y_cg_nose_landing_gear")?;
        let z_cg_nose_landing_gear = need(self.cg.z, Part::NoseLandingGear, "z_cg_nose_landing_gear")?;
        Ok(
            Point::new(
                Formula::constant(x_cg_nose_landing_gear),
                Formula::constant(y_cg_nose_landing_gear),
                Formula::constant(z_cg_nose_landing_gear),
            ),
        )
    }

    /// The part as a member of a group.
    pub open spec fn member_law(&self, w_dg: Fixed, n_z: Fixed) -> MemberView {
        MemberView {
            part: Part::NoseLandingGear,
            origin: at_origin(),
            weight: self.weight_law(w_dg, n_z),
            position: self.cg_law(),
        }
    }

    /// The part as a member of a group.
    pub fn member(&self, w_dg: Fixed, n_z: Fixed) -> (m: Member)
        ensures
            m@ == self.member_law(w_dg, n_z),
    {
        Member {
            part: Part::NoseLandingGear,
            origin: origin(),
            weight: self.weight_formula(w_dg, n_z),
            position: self.cg_formula(),
        }
    }
}

impl Component for NoseLandingGear {
    /// The part as `table` describes it: each field is the value under its
    /// symbol, or absent where the table has none.
    open spec fn from_table(table: Map<Seq<char>, Fixed>) -> NoseLandingGear {
        NoseLandingGear {
            w_l: lookup(table, "w_l"@),
            n_l: lookup(table, "n_l"@),
            k_np: lookup(table, "k_np"@),
            l_n: lookup(table, "l_n"@),
            n_nw: lookup(table, "n_nw"@),
            cg: Point {
                x: lookup(table, "x_cg_nose_landing_gear"@),
                y: lookup(table, "y_cg_nose_landing_gear"@),
                z: lookup(table, "z_cg_nose_landing_gear"@),
            },
        }
    }

    /// Takes from `params` what the part needs. This never fails: a value
    /// that is absent is missed only when it is used.
    fn new(params: &Params) -> (r: Self) {
        Self {
            w_l: params.get("w_l"),
            n_l: params.get("n_l"),
            k_np: params.get("k_np"),
            l_n: params.get("l_n"),
            n_nw: params.get("n_nw"),
            cg: Point::new(
                params.get("x_cg_nose_landing_gear"),
                params.get("y_cg_nose_landing_gear"),
                params.get("z_cg_nose_landing_gear"),
            ),
        }
    }

    open spec fn weight_is(
        &self,
        answers: Answers,
        w_dg: Fixed,
        n_z: Fixed,
        r: Result<Weight, Failure>,
    ) -> bool {
        weighs(answers, Part::NoseLandingGear, self.weight_law(w_dg, n_z), r)
    }

    /// The weight of the part: the value that `eval` gives the formula of its
    /// weight, which must not be negative.
    fn weight<F: Fn(&Formula) -> Option<Fixed>>(
        &self,
        w_dg: Fixed,
        n_z: Fixed,
        eval: &F,
    ) -> (r: Result<Weight, Failure>)
    {
        weigh(Part::NoseLandingGear, &self.weight_formula(w_dg, n_z), eval)
    }

    proof fn lemma_weight_is_pure(
        &self,
        answers: Answers,
        w_dg: Fixed,
        n_z: Fixed,
        r1: Result<Weight, Failure>,
        r2: Result<Weight, Failure>,
    ) {
        lemma_weight_is_pure(answers, Part::NoseLandingGear, self.weight_law(w_dg, n_z), r1, r2);
    }

    open spec fn cg_is(
        &self,
        answers: Answers,
        w_dg: Fixed,
        n_z: Fixed,
        r: Result<Point<Fixed>, Failure>,
    ) -> bool {
        locates(answers, Part::NoseLandingGear, at_origin(), self.cg_law(), r)
    }

    /// The centre of gravity of the part, as it was given. Neither the two
    /// numbers nor the evaluator are used.
    #[allow(unused_variables)]
    fn cg<F: Fn(&Formula) -> Option<Fixed>>(
        &self,
        w_dg: Fixed,
        n_z: Fixed,
        eval: &F,
    ) -> (r: Result<Point<Fixed>, Failure>)
        ensures
            self.cg_law() is Ok ==> r == Ok::<Point<Fixed>, Failure>(
                Point { x: self.cg.x.unwrap(), y: self.cg.y.unwrap(), z: self.cg.z.unwrap() },
            ),
    {
        let r = locate(Part::NoseLandingGear, origin(), &self.cg_formula(), eval);
        proof {
            if self.cg_law() is Ok {
                let p = self.cg_law()->Ok_0;
                lemma_constant(self.cg.x.unwrap());
                lemma_constant(self.cg.y.unwrap());
                lemma_constant(self.cg.z.unwrap());
                lemma_polynomial_position(*eval, Part::NoseLandingGear, at_origin(), p, r);
            }
        }
        r
    }

    proof fn lemma_cg_is_pure(
        &self,
        answers: Answers,
        w_dg: Fixed,
        n_z: Fixed,
        r1: Result<Point<Fixed>, Failure>,
        r2: Result<Point<Fixed>, Failure>,
    ) {
        lemma_cg_is_pure(answers, Part::NoseLandingGear, at_origin(), self.cg_law(), r1, r2);
    }
}

/// The furnishings.
#[derive(Clone, Copy, Debug)]
pub struct Furnishing {
    /// Number of crew.
    pub n_c: Option<Fixed>,
    /// Largest cargo weight in lb.
    pub w_c: Option<Fixed>,
    /// Wetted area of the fuselage in ft^2.
    pub s_f: Option<Fixed>,
    /// Number of seats.
    pub n_seat: Option<Fixed>,
    /// Weight of one seat in lb.
    pub w_seat: Option<Fixed>,
    /// Lavatory factor.
    pub k_lav: Option<Fixed>,
    /// Number of passengers.
    pub n_p: Option<Fixed>,
    /// Buffet factor.
    pub k_buf: Option<Fixed>,
    /// Centre of gravity in ft.
    pub cg: Point<Option<Fixed>>,
}

impl Furnishing {
    /// The weight in lb for the design gross weight `w_dg` (`W`, in lb) and the
    /// ultimate load factor `n_z` (`Nz`):
    ///
    /// `0.0577 N_c^0.1 W_c^0.393 S_f^0.75 + N_seat W_seat + K_lav N_p^1.33 + K_buf N_p^1.12`
    ///
    /// Fails with the first of its inputs that is absent.
    pub open spec fn weight_law(&self, w_dg: Fixed, n_z: Fixed) -> Result<Seq<TermView>, Failure> {
        if self.n_c is None {
            absent(Part::Furnishing, "n_c")
        } else if self.w_c is None {
            absent(Part::Furnishing, "w_c")
        } else if self.s_f is None {
            absent(Part::Furnishing, "s_f")
        } else if self.n_seat is None {
            absent(Part::Furnishing, "n_seat")
        } else if self.w_seat is None {
            absent(Part::Furnishing, "w_seat")
        } else if self.k_lav is None {
            absent(Part::Furnishing, "k_lav")
        } else if self.n_p is None {
            absent(Part::Furnishing, "n_p")
        } else if self.k_buf is None {
            absent(Part::Furnishing, "k_buf")
        } else {
            let n_c = self.n_c.unwrap();
            let w_c = self.w_c.unwrap();
            let s_f = self.s_f.unwrap();
            let n_seat = self.n_seat.unwrap();
            let w_seat = self.w_seat.unwrap();
            let k_lav = self.k_lav.unwrap();
            let n_p = self.n_p.unwrap();
            let k_buf = self.k_buf.unwrap();
            Ok(
                seq![
                    term(
                        57_700,
                        seq![
                            power(n_c, 100_000), power(w_c, 393_000), power(s_f, 750_000),
                        ],
                    ),
                    term(1_000_000, seq![times(n_seat), times(w_seat)]),
                    term(1_000_000, seq![times(k_lav), power(n_p, 1_330_000)]),
                    term(1_000_000, seq![times(k_buf), power(n_p, 1_120_000)]),
                ],
            )
        }
    }

    /// The formula of the weight, as [`Self::weight_law`] states it.
    #[allow(unused_variables)]
    pub fn weight_formula(&self, w_dg: Fixed, n_z: Fixed) -> (r: Result<Formula, Failure>)
        ensures
            law(r) == self.weight_law(w_dg, n_z),
    {
        let n_c = need(self.n_c, Part::Furnishing, "n_c")?;
        let w_c = need(self.w_c, Part::Furnishing, "w_c")?;
        let s_f = need(self.s_f, Part::Furnishing, "s_f")?;
        let n_seat = need(self.n_seat, Part::Furnishing, "n_seat")?;
        let w_seat = need(self.w_seat, Part::Furnishing, "w_seat")?;
        let k_lav = need(self.k_lav, Part::Furnishing, "k_lav")?;
        let n_p = need(self.n_p, Part::Furnishing, "n_p")?;
        let k_buf = need(self.k_buf, Part::Furnishing, "k_buf")?;
        let formula_0 = Term::new(57_700, vec![
            Factor::power(n_c, 100_000), Factor::power(w_c, 393_000),
            Factor::power(s_f, 750_000),
        ]);
        assert(formula_0@.factors =~= self.weight_law(w_dg, n_z)->Ok_0[0].factors);
        let formula_1 = Term::new(1_000_000, vec![
            Factor::times(n_seat), Factor::times(w_seat),
        ]);
        assert(formula_1@.factors =~= self.weight_law(w_dg, n_z)->Ok_0[1].factors);
        let formula_2 = Term::new(1_000_000, vec![
            Factor::times(k_lav), Factor::power(n_p, 1_330_000),
        ]);
        assert(formula_2@.factors =~= self.weight_law(w_dg, n_z)->Ok_0[2].factors);
        let formula_3 = Term::new(1_000_000, vec![
            Factor::times(k_buf), Factor::power(n_p, 1_120_000),
        ]);
        assert(formula_3@.factors =~= self.weight_law(w_dg, n_z)->Ok_0[3].factors);
        let ghost formula_terms = seq![formula_0@, formula_1@, formula_2@, formula_3@];
        let formula = Formula::sum(vec![formula_0, formula_1, formula_2, formula_3]);
        assert(formula@ =~= formula_terms);
        assert(formula@ =~~= self.weight_law(w_dg, n_z)->Ok_0);
        Ok(formula)
    }

    /// The centre of gravity in ft, as it was given. Fails with the first of
    /// its coordinates that is absent.
    pub open spec fn cg_law(&self) -> Result<Point<Seq<TermView>>, Failure> {
        if self.cg.x is None {
            absent(Part::Furnishing, "x_cg_furnishing")
        } else if self.cg.y is None {
            absent(Part::Furnishing, "y_cg_furnishing")
        } else if self.cg.z is None {
            absent(Part::Furnishing, "z_cg_furnishing")
        } else {
            let x_cg_furnishing = self.cg.x.unwrap();
            let y_cg_furnishing = self.cg.y.unwrap();
            let z_cg_furnishing = self.cg.z.unwrap();
            Ok(
                Point {
                    x: constant(x_cg_furnishing),
                    y: constant(y_cg_furnishing),
                    z: constant(z_cg_furnishing),
                },
            )
        }
    }

    /// The formulas of the centre of gravity, as [`Self::cg_law`] states them.
    pub fn cg_formula(&self) -> (r: Result<Point<Formula>, Failure>)
        ensures
            place_law(r) == self.cg_law(),
    {
        let x_cg_furnishing = need(self.cg.x, Part::Furnishing, "x_cg_furnishing")?;
        let y_cg_furnishing = need(self.cg.y, Part::Furnishing, "y_cg_furnishing")?;
        let z_cg_furnishing = need(self.cg.z, Part::Furnishing, "z_cg_furnishing")?;
        Ok(
            Point::new(
                Formula::constant(x_cg_furnishing),
                Formula::constant(y_cg_furnishing),
                Formula::constant(z_cg_furnishing),
            ),
        )
    }

    /// The part as a member of a group.
    pub open spec fn member_law(&self, w_dg: Fixed, n_z: Fixed) -> MemberView {
        MemberView {
            part: Part::Furnishing,
            origin: at_origin(),
            weight: self.weight_law(w_dg, n_z),
            position: self.cg_law(),
        }
    }

    /// The part as a member of a group.
    pub fn member(&self, w_dg: Fixed, n_z: Fixed) -> (m: Member)
        ensures
            m@ == self.member_law(w_dg, n_z),
    {
        Member {
            part: Part::Furnishing,
            origin: origin(),
            weight: self.weight_formula(w_dg, n_z),
            position: self.cg_formula(),
        }
    }
}

impl Component for Furnishing {
    /// The part as `table` describes it: each field is the value under its
    /// symbol, or absent where the table has none.
    open spec fn from_table(table: Map<Seq<char>, Fixed>) -> Furnishing {
        Furnishing {
            n_c: lookup(table, "n_c"@),
            w_c: lookup(table, "w_c"@),
            s_f: lookup(table, "s_f"@),
            n_seat: lookup(table, "n_seat"@),
            w_seat: lookup(table, "w_seat"@),
            k_lav: lookup(table, "k_lav"@),
            n_p: lookup(table, "n_p"@),
            k_buf: lookup(table, "k_buf"@),
            cg: Point {
                x: lookup(table, "x_cg_furnishing"@),
                y: lookup(table, "y_cg_furnishing"@),
                z: lookup(table, "z_cg_furnishing"@),
            },
        }
    }

    /// Takes from `params` what the part needs. This never fails: a value
    /// that is absent is missed only when it is used.
    fn new(params: &Params) -> (r: Self) {
        Self {
            n_c: params.get("n_c"),
            w_c: params.get("w_c"),
            s_f: params.get("s_f"),
            n_seat: params.get("n_seat"),
            w_seat: params.get("w_seat"),
            k_lav: params.get("k_lav"),
            n_p: params.get("n_p"),
            k_buf: params.get("k_buf"),
            cg: Point::new(
                params.get("x_cg_furnishing"),
                params.get("y_cg_furnishing"),
                params.get("z_cg_furnishing"),
            ),
        }
    }

    open spec fn weight_is(
        &self,
        answers: Answers,
        w_dg: Fixed,
        n_z: Fixed,
        r: Result<Weight, Failure>,
    ) -> bool {
        weighs(answers, Part::Furnishing, self.weight_law(w_dg, n_z), r)
    }

    /// The weight of the part: the value that `eval` gives the formula of its
    /// weight, which must not be negative.
    fn weight<F: Fn(&Formula) -> Option<Fixed>>(
        &self,
        w_dg: Fixed,
        n_z: Fixed,
        eval: &F,
    ) -> (r: Result<Weight, Failure>)
    {
        weigh(Part::Furnishing, &self.weight_formula(w_dg, n_z), eval)
    }

    proof fn lemma_weight_is_pure(
        &self,
        answers: Answers,
        w_dg: Fixed,
        n_z: Fixed,
        r1: Result<Weight, Failure>,
        r2: Result<Weight, Failure>,
    ) {
        lemma_weight_is_pure(answers, Part::Furnishing, self.weight_law(w_dg, n_z), r1, r2);
    }

    open spec fn cg_is(
        &self,
        answers: Answers,
        w_dg: Fixed,
        n_z: Fixed,
        r: Result<Point<Fixed>, Failure>,
    ) -> bool {
        locates(answers, Part::Furnishing, at_origin(), self.cg_law(), r)
    }

    /// The centre of gravity of the part, as it was given. Neither the two
    /// numbers nor the evaluator are used.
    #[allow(unused_variables)]
    fn cg<F: Fn(&Formula) -> Option<Fixed>>(
        &self,
        w_dg: Fixed,
        n_z: Fixed,
        eval: &F,
    ) -> (r: Result<Point<Fixed>, Failure>)
        ensures
            self.cg_law() is Ok ==> r == Ok::<Point<Fixed>, Failure>(
                Point { x: self.cg.x.unwrap(), y: self.cg.y.unwrap(), z: self.cg.z.unwrap() },
            ),
    {
        let r = locate(Part::Furnishing, origin(), &self.cg_formula(), eval);
        proof {
            if self.cg_law() is Ok {
                let p = self.cg_law()->Ok_0;
                lemma_constant(self.cg.x.unwrap());
                lemma_constant(self.cg.y.unwrap());
                lemma_constant(self.cg.z.unwrap());
                lemma_polynomial_position(*eval, Part::Furnishing, at_origin(), p, r);
            }
        }
        r
    }

    proof fn lemma_cg_is_pure(
        &self,
        answers: Answers,
        w_dg: Fixed,
        n_z: Fixed,
        r1: Result<Point<Fixed>, Failure>,
        r2: Result<Point<Fixed>, Failure>,
    ) {
        lemma_cg_is_pure(answers, Part::Furnishing, at_origin(), self.cg_law(), r1, r2);
    }
}

/// The air conditioning.
#[derive(Clone, Copy, Debug)]
pub struct AirConditioning {
    /// Number of passengers.
    pub n_p: Option<Fixed>,
    /// Pressurised volume in ft^3.
    pub v_pr: Option<Fixed>,
    /// Weight of the avionics before installation in lb.
    pub w_uav: Option<Fixed>,
    /// Centre of gravity in ft.
    pub cg: Point<Option<Fixed>>,
}

impl AirConditioning {
    /// The weight in lb for the design gross weight `w_dg` (`W`, in lb) and the
    /// ultimate load factor `n_z` (`Nz`):
    ///
    /// `62.36 N_p^0.25 (V_pr / 1000)^0.604 W_uav^0.1`
    ///
    /// The power of a product with a constant is stated as the product of the
    /// powers.
    /// Fails with the first of its inputs that is absent.
    pub open spec fn weight_law(&self, w_dg: Fixed, n_z: Fixed) -> Result<Seq<TermView>, Failure> {
        if self.n_p is None {
            absent(Part::AirConditioning, "n_p")
        } else if self.v_pr is None {
            absent(Part::AirConditioning, "v_pr")
        } else if self.w_uav is None {
            absent(Part::AirConditioning, "w_uav")
        } else {
            let n_p = self.n_p.unwrap();
            let v_pr = self.v_pr.unwrap();
            let w_uav = self.w_uav.unwrap();
            Ok(
                seq![
                    term(
                        62_360_000,
                        seq![
                            power(n_p, 250_000), power(v_pr, 604_000),
                            power(Fixed { raw: 1_000 }, 604_000), power(w_uav, 100_000),
                        ],
                    ),
                ],
            )
        }
    }

    /// The formula of the weight, as [`Self::weight_law`] states it.
    #[allow(unused_variables)]
    pub fn weight_formula(&self, w_dg: Fixed, n_z: Fixed) -> (r: Result<Formula, Failure>)
        ensures
            law(r) == self.weight_law(w_dg, n_z),
    {
        let n_p = need(self.n_p, Part::AirConditioning, "n_p")?;
        let v_pr = need(self.v_pr, Part::AirConditioning, "v_pr")?;
        let w_uav = need(self.w_uav, Part::AirConditioning, "w_uav")?;
        let formula_factors = vec![
            Factor::power(n_p, 250_000), Factor::power(v_pr, 604_000),
            Factor::power(Fixed { raw: 1_000 }, 604_000), Factor::power(w_uav, 100_000),
        ];
        assert(formula_factors@ =~= self.weight_law(w_dg, n_z)->Ok_0[0].factors);
        let formula = Formula::single(62_360_000, formula_factors);
        assert(formula@ =~~= self.weight_law(w_dg, n_z)->Ok_0);
        Ok(formula)
    }

    /// The centre of gravity in ft, as it was given. Fails with the first of
    /// its coordinates that is absent.
    pub open spec fn cg_law(&self) -> Result<Point<Seq<TermView>>, Failure> {
        if self.cg.x is None {
            absent(Part::AirConditioning, "x_cg_air_conditioning")
        } else if self.cg.y is None {
            absent(Part::AirConditioning, "y_cg_air_conditioning")
        } else if self.cg.z is None {
            absent(Part::AirConditioning, "z_cg_air_conditioning")
        } else {
            let x_cg_air_conditioning = self.cg.x.unwrap();
            let y_cg_air_conditioning = self.cg.y.unwrap();
            let z_cg_air_conditioning = self.cg.z.unwrap();
            Ok(
                Point {
                    x: constant(x_cg_air_conditioning),
                    y: constant(y_cg_air_conditioning),
                    z: constant(z_cg_air_conditioning),
                },
            )
        }
    }

    /// The formulas of the centre of gravity, as [`Self::cg_law`] states them.
    pub fn cg_formula(&self) -> (r: Result<Point<Formula>, Failure>)
        ensures
            place_law(r) == self.cg_law(),
    {
        let x_cg_air_conditioning = need(self.cg.x, Part::AirConditioning, "x_cg_air_conditioning")?;
        let y_cg_air_conditioning = need(self.cg.y, Part::AirConditioning, "y_cg_air_conditioning")?;
        let z_cg_air_conditioning = need(self.cg.z, Part::AirConditioning, "z_cg_air_conditioning")?;
        Ok(
            Point::new(
                Formula::constant(x_cg_air_conditioning),
                Formula::constant(y_cg_air_conditioning),
                Formula::constant(z_cg_air_conditioning),
            ),
        )
    }

    /// The part as a member of a group.
    pub open spec fn member_law(&self, w_dg: Fixed, n_z: Fixed) -> MemberView {
        MemberView {
            part: Part::AirConditioning,
            origin: at_origin(),
            weight: self.weight_law(w_dg, n_z),
            position: self.cg_law(),
        }
    }

    /// The part as a member of a group.
    pub fn member(&self, w_dg: Fixed, n_z: Fixed) -> (m: Member)
        ensures
            m@ == self.member_law(w_dg, n_z),
    {
        Member {
            part: Part::AirConditioning,
            origin: origin(),
            weight: self.weight_formula(w_dg, n_z),
            position: self.cg_formula(),
        }
    }
}

impl Component for AirConditioning {
    /// The part as `table` describes it: each field is the value under its
    /// symbol, or absent where the table has none.
    open spec fn from_table(table: Map<Seq<char>, Fixed>) -> AirConditioning {
        AirConditioning {
            n_p: lookup(table, "n_p"@),
            v_pr: lookup(table, "v_pr"@),
            w_uav: lookup(table, "w_uav"@),
            cg: Point {
                x: lookup(table, "x_cg_air_conditioning"@),
                y: lookup(table, "y_cg_air_conditioning"@),
                z: lookup(table, "z_cg_air_conditioning"@),
            },
        }
    }

    /// Takes from `params` what the part needs. This never fails: a value
    /// that is absent is missed only when it is used.
    fn new(params: &Params) -> (r: Self) {
        Self {
            n_p: params.get("n_p"),
            v_pr: params.get("v_pr"),
            w_uav: params.get("w_uav"),
            cg: Point::new(
                params.get("x_cg_air_conditioning"),
                params.get("y_cg_air_conditioning"),
                params.get("z_cg_air_conditioning"),
            ),
        }
    }

    open spec fn weight_is(
        &self,
        answers: Answers,
        w_dg: Fixed,
        n_z: Fixed,
        r: Result<Weight, Failure>,
    ) -> bool {
        weighs(answers, Part::AirConditioning, self.weight_law(w_dg, n_z), r)
    }

    /// The weight of the part: the value that `eval` gives the formula of its
    /// weight, which must not be negative.
    fn weight<F: Fn(&Formula) -> Option<Fixed>>(
        &self,
        w_dg: Fixed,
        n_z: Fixed,
        eval: &F,
    ) -> (r: Result<Weight, Failure>)
    {
        weigh(Part::AirConditioning, &self.weight_formula(w_dg, n_z), eval)
    }

    proof fn lemma_weight_is_pure(
        &self,
        answers: Answers,
        w_dg: Fixed,
        n_z: Fixed,
        r1: Result<Weight, Failure>,
        r2: Result<Weight, Failure>,
    ) {
        lemma_weight_is_pure(answers, Part::AirConditioning, self.weight_law(w_dg, n_z), r1, r2);
    }

    open spec fn cg_is(
        &self,
        answers: Answers,
        w_dg: Fixed,
        n_z: Fixed,
        r: Result<Point<Fixed>, Failure>,
    ) -> bool {
        locates(answers, Part::AirConditioning, at_origin(), self.cg_law(), r)
    }

    /// The centre of gravity of the part, as it was given. Neither the two
    /// numbers nor the evaluator are used.
    #[allow(unused_variables)]
    fn cg<F: Fn(&Formula) -> Option<Fixed>>(
        &self,
        w_dg: Fixed,
        n_z: Fixed,
        eval: &F,
    ) -> (r: Result<Point<Fixed>, Failure>)
        ensures
            self.cg_law() is Ok ==> r == Ok::<Point<Fixed>, Failure>(
                Point { x: self.cg.x.unwrap(), y: self.cg.y.unwrap(), z: self.cg.z.unwrap() },
            ),
    {
        let r = locate(Part::AirConditioning, origin(), &self.cg_formula(), eval);
        proof {
            if self.cg_law() is Ok {
                let p = self.cg_law()->Ok_0;
                lemma_constant(self.cg.x.unwrap());
                lemma_constant(self.cg.y.unwrap());
                lemma_constant(self.cg.z.unwrap());
                lemma_polynomial_position(*eval, Part::AirConditioning, at_origin(), p, r);
            }
        }
        r
    }

    proof fn lemma_cg_is_pure(
        &self,
        answers: Answers,
        w_dg: Fixed,
        n_z: Fixed,
        r1: Result<Point<Fixed>, Failure>,
        r2: Result<Point<Fixed>, Failure>,
    ) {
        lemma_cg_is_pure(answers, Part::AirConditioning, at_origin(), self.cg_law(), r1, r2);
    }
}

/// The electrical system.
#[derive(Clone, Copy, Debug)]
pub struct ElectricalSystems {
    /// Rating of the electrical system in kVA.
    pub r_kva: Option<Fixed>,
    /// Routing distance from the generators over the avionics to the cockpit in
    /// ft.
    pub l_a: Option<Fixed>,
    /// Number of generators.
    pub n_gen: Option<Fixed>,
    /// Centre of gravity in ft.
    pub cg: Point<Option<Fixed>>,
}

impl ElectricalSystems {
    /// The weight in lb for the design gross weight `w_dg` (`W`, in lb) and the
    /// ultimate load factor `n_z` (`Nz`):
    ///
    /// `7.291 R_kva^0.782 L_a^0.346 N_gen^0.1`
    ///
    /// Fails with the first of its inputs that is absent.
    pub open spec fn weight_law(&self, w_dg: Fixed, n_z: Fixed) -> Result<Seq<TermView>, Failure> {
        if self.r_kva is None {
            absent(Part::ElectricalSystems, "r_kva")
        } else if self.l_a is None {
            absent(Part::ElectricalSystems, "l_a")
        } else if self.n_gen is None {
            absent(Part::ElectricalSystems, "n_gen")
        } else {
            let r_kva = self.r_kva.unwrap();
            let l_a = self.l_a.unwrap();
            let n_gen = self.n_gen.unwrap();
            Ok(
                seq![
                    term(
                        7_291_000,
                        seq![
                            power(r_kva, 782_000), power(l_a, 346_000), power(n_gen, 100_000),
                        ],
                    ),
                ],
            )
        }
    }

    /// The formula of the weight, as [`Self::weight_law`] states it.
    #[allow(unused_variables)]
    pub fn weight_formula(&self, w_dg: Fixed, n_z: Fixed) -> (r: Result<Formula, Failure>)
        ensures
            law(r) == self.weight_law(w_dg, n_z),
    {
        let r_kva = need(self.r_kva, Part::ElectricalSystems, "r_kva")?;
        let l_a = need(self.l_a, Part::ElectricalSystems, "l_a")?;
        let n_gen = need(self.n_gen, Part::ElectricalSystems, "n_gen")?;
        let formula_factors = vec![
            Factor::power(r_kva, 782_000), Factor::power(l_a, 346_000),
            Factor::power(n_gen, 100_000),
        ];
        assert(formula_factors@ =~= self.weight_law(w_dg, n_z)->Ok_0[0].factors);
        let formula = Formula::single(7_291_000, formula_factors);
        assert(formula@ =~~= self.weight_law(w_dg, n_z)->Ok_0);
        Ok(formula)
    }

    /// The centre of gravity in ft, as it was given. Fails with the first of
    /// its coordinates that is absent.
    pub open spec fn cg_law(&self) -> Result<Point<Seq<TermView>>, Failure> {
        if self.cg.x is None {
            absent(Part::ElectricalSystems, "x_cg_electrical_systems")
        } else if self.cg.y is None {
            absent(Part::ElectricalSystems, "y_cg_electrical_systems")
        } else if self.cg.z is None {
            absent(Part::ElectricalSystems, "z_cg_electrical_systems")
        } else {
            let x_cg_electrical_systems = self.cg.x.unwrap();
            let y_cg_electrical_systems = self.cg.y.unwrap();
            let z_cg_electrical_systems = self.cg.z.unwrap();
            Ok(
                Point {
                    x: constant(x_cg_electrical_systems),
                    y: constant(y_cg_electrical_systems),
                    z: constant(z_cg_electrical_systems),
                },
            )
        }
    }

    /// The formulas of the centre of gravity, as [`Self::cg_law`] states them.
    pub fn cg_formula(&self) -> (r: Result<Point<Formula>, Failure>)
        ensures
            place_law(r) == self.cg_law(),
    {
        let x_cg_electrical_systems = need(self.cg.x, Part::ElectricalSystems, "x_cg_electrical_systems")?;
        let y_cg_electrical_systems = need(self.cg.y, Part::ElectricalSystems, "y_cg_electrical_systems")?;
        let z_cg_electrical_systems = need(self.cg.z, Part::ElectricalSystems, "z_cg_electrical_systems")?;
        Ok(
            Point::new(
                Formula::constant(x_cg_electrical_systems),
                Formula::constant(y_cg_electrical_systems),
                Formula::constant(z_cg_electrical_systems),
            ),
        )
    }

    /// The part as a member of a group.
    pub open spec fn member_law(&self, w_dg: Fixed, n_z: Fixed) -> MemberView {
        MemberView {
            part: Part::ElectricalSystems,
            origin: at_origin(),
            weight: self.weight_law(w_dg, n_z),
            position: self.cg_law(),
        }
    }

    /// The part as a member of a group.
    pub fn member(&self, w_dg: Fixed, n_z: Fixed) -> (m: Member)
        ensures
            m@ == self.member_law(w_dg, n_z),
    {
        Member {
            part: Part::ElectricalSystems,
            origin: origin(),
            weight: self.weight_formula(w_dg, n_z),
            position: self.cg_formula(),
        }
    }
}

impl Component for ElectricalSystems {
    /// The part as `table` describes it: each field is the value under its
    /// symbol, or absent where the table has none.
    open spec fn from_table(table: Map<Seq<char>, Fixed>) -> ElectricalSystems {
        ElectricalSystems {
            r_kva: lookup(table, "r_kva"@),
            l_a: lookup(table, "l_a"@),
            n_gen: lookup(table, "n_gen"@),
            cg: Point {
                x: lookup(table, "x_cg_electrical_systems"@),
                y: lookup(table, "y_cg_electrical_systems"@),
                z: lookup(table, "z_cg_electrical_systems"@),
            },
        }
    }

    /// Takes from `params` what the part needs. This never fails: a value
    /// that is absent is missed only when it is used.
    fn new(params: &Params) -> (r: Self) {
        Self {
            r_kva: params.get("r_kva"),
            l_a: params.get("l_a"),
            n_gen: params.get("n_gen"),
            cg: Point::new(
                params.get("x_cg_electrical_systems"),
                params.get("y_cg_electrical_systems"),
                params.get("z_cg_electrical_systems"),
            ),
        }
    }

    open spec fn weight_is(
        &self,
        answers: Answers,
        w_dg: Fixed,
        n_z: Fixed,
        r: Result<Weight, Failure>,
    ) -> bool {
        weighs(answers, Part::ElectricalSystems, self.weight_law(w_dg, n_z), r)
    }

    /// The weight of the part: the value that `eval` gives the formula of its
    /// weight, which must not be negative.
    fn weight<F: Fn(&Formula) -> Option<Fixed>>(
        &self,
        w_dg: Fixed,
        n_z: Fixed,
        eval: &F,
    ) -> (r: Result<Weight, Failure>)
    {
        weigh(Part::ElectricalSystems, &self.weight_formula(w_dg, n_z), eval)
    }

    proof fn lemma_weight_is_pure(
        &self,
        answers: Answers,
        w_dg: Fixed,
        n_z: Fixed,
        r1: Result<Weight, Failure>,
        r2: Result<Weight, Failure>,
    ) {
        lemma_weight_is_pure(answers, Part::ElectricalSystems, self.weight_law(w_dg, n_z), r1, r2);
    }

    open spec fn cg_is(
        &self,
        answers: Answers,
        w_dg: Fixed,
        n_z: Fixed,
        r: Result<Point<Fixed>, Failure>,
    ) -> bool {
        locates(answers, Part::ElectricalSystems, at_origin(), self.cg_law(), r)
    }

    /// The centre of gravity of the part, as it was given. Neither the two
    /// numbers nor the evaluator are used.
    #[allow(unused_variables)]
    fn cg<F: Fn(&Formula) -> Option<Fixed>>(
        &self,
        w_dg: Fixed,
        n_z: Fixed,
        eval: &F,
    ) -> (r: Result<Point<Fixed>, Failure>)
        ensures
            self.cg_law() is Ok ==> r == Ok::<Point<Fixed>, Failure>(
                Point { x: self.cg.x.unwrap(), y: self.cg.y.unwrap(), z: self.cg.z.unwrap() },
            ),
    {
        let r = locate(Part::ElectricalSystems, origin(), &self.cg_formula(), eval);
        proof {
            if self.cg_law() is Ok {
                let p = self.cg_law()->Ok_0;
                lemma_constant(self.cg.x.unwrap());
                lemma_constant(self.cg.y.unwrap());
                lemma_constant(self.cg.z.unwrap());
                lemma_polynomial_position(*eval, Part::ElectricalSystems, at_origin(), p, r);
            }
        }
        r
    }

    proof fn lemma_cg_is_pure(
        &self,
        answers: Answers,
        w_dg: Fixed,
        n_z: Fixed,
        r1: Result<Point<Fixed>, Failure>,
        r2: Result<Point<Fixed>, Failure>,
    ) {
        lemma_cg_is_pure(answers, Part::ElectricalSystems, at_origin(), self.cg_law(), r1, r2);
    }
}

/// The instruments.
#[derive(Clone, Copy, Debug)]
pub struct Instruments {
    /// 1.133 for a reciprocating engine, 1.0 otherwise.
    pub k_r: Option<Fixed>,
    /// Number of crew.
    pub n_c: Option<Fixed>,
    /// Number of engines.
    pub n_en: Option<Fixed>,
    /// Length of the fuselage in ft.
    pub l_f: Option<Fixed>,
    /// Wing span in ft.
    pub b_w: Option<Fixed>,
    /// Centre of gravity in ft.
    pub cg: Point<Option<Fixed>>,
}

impl Instruments {
    /// The weight in lb for the design gross weight `w_dg` (`W`, in lb) and the
    /// ultimate load factor `n_z` (`Nz`):
    ///
    /// `4.509 K_r N_c^0.541 N_en (L_f + B_w)^0.5`
    ///
    /// Fails with the first of its inputs that is absent.
    /// Else it is out of range where `l_f + b_w` cannot be held.
    pub open spec fn weight_law(&self, w_dg: Fixed, n_z: Fixed) -> Result<Seq<TermView>, Failure> {
        if self.k_r is None {
            absent(Part::Instruments, "k_r")
        } else if self.n_c is None {
            absent(Part::Instruments, "n_c")
        } else if self.n_en is None {
            absent(Part::Instruments, "n_en")
        } else if self.l_f is None {
            absent(Part::Instruments, "l_f")
        } else if self.b_w is None {
            absent(Part::Instruments, "b_w")
        } else {
            let k_r = self.k_r.unwrap();
            let n_c = self.n_c.unwrap();
            let n_en = self.n_en.unwrap();
            let l_f = self.l_f.unwrap();
            let b_w = self.b_w.unwrap();
            if Fixed::sum(l_f, b_w) is None {
                Err(Failure::OutOfRange { part: Part::Instruments })
            } else {
                let reach = Fixed::sum(l_f, b_w).unwrap();
                Ok(
                    seq![
                        term(
                            4_509_000,
                            seq![
                                times(k_r), power(n_c, 541_000), times(n_en),
                                power(reach, 500_000),
                            ],
                        ),
                    ],
                )
            }
        }
    }

    /// The formula of the weight, as [`Self::weight_law`] states it.
    #[allow(unused_variables)]
    pub fn weight_formula(&self, w_dg: Fixed, n_z: Fixed) -> (r: Result<Formula, Failure>)
        ensures
            law(r) == self.weight_law(w_dg, n_z),
    {
        let k_r = need(self.k_r, Part::Instruments, "k_r")?;
        let n_c = need(self.n_c, Part::Instruments, "n_c")?;
        let n_en = need(self.n_en, Part::Instruments, "n_en")?;
        let l_f = need(self.l_f, Part::Instruments, "l_f")?;
        let b_w = need(self.b_w, Part::Instruments, "b_w")?;
        let reach = match l_f.checked_add(b_w) {
            Some(v) => v,
            None => {
                return Err(Failure::OutOfRange { part: Part::Instruments });
            },
        };
        let formula_factors = vec![
            Factor::times(k_r), Factor::power(n_c, 541_000), Factor::times(n_en),
            Factor::power(reach, 500_000),
        ];
        assert(formula_factors@ =~= self.weight_law(w_dg, n_z)->Ok_0[0].factors);
        let formula = Formula::single(4_509_000, formula_factors);
        assert(formula@ =~~= self.weight_law(w_dg, n_z)->Ok_0);
        Ok(formula)
    }

    /// The centre of gravity in ft, as it was given. Fails with the first of
    /// its coordinates that is absent.
    pub open spec fn cg_law(&self) -> Result<Point<Seq<TermView>>, Failure> {
        if self.cg.x is None {
            absent(Part::Instruments, "x_cg_instruments")
        } else if self.cg.y is None {
            absent(Part::Instruments, "y_cg_instruments")
        } else if self.cg.z is None {
            absent(Part::Instruments, "z_cg_instruments")
        } else {
            let x_cg_instruments = self.cg.x.unwrap();
            let y_cg_instruments = self.cg.y.unwrap();
            let z_cg_instruments = self.cg.z.unwrap();
            Ok(
                Point {
                    x: constant(x_cg_instruments),
                    y: constant(y_cg_instruments),
                    z: constant(z_cg_instruments),
                },
            )
        }
    }

    /// The formulas of the centre of gravity, as [`Self::cg_law`] states them.
    pub fn cg_formula(&self) -> (r: Result<Point<Formula>, Failure>)
        ensures
            place_law(r) == self.cg_law(),
    {
        let x_cg_instruments = need(self.cg.x, Part::Instruments, "x_cg_instruments")?;
        let y_cg_instruments = need(self.cg.y, Part::Instruments, "y_cg_instruments")?;
        let z_cg_instruments = need(self.cg.z, Part::Instruments, "z_cg_instruments")?;
        Ok(
            Point::new(
                Formula::constant(x_cg_instruments),
                Formula::constant(y_cg_instruments),
                Formula::constant(z_cg_instruments),
            ),
        )
    }

    /// The part as a member of a group.
    pub open spec fn member_law(&self, w_dg: Fixed, n_z: Fixed) -> MemberView {
        MemberView {
            part: Part::Instruments,
            origin: at_origin(),
            weight: self.weight_law(w_dg, n_z),
            position: self.cg_law(),
        }
    }

    /// The part as a member of a group.
    pub fn member(&self, w_dg: Fixed, n_z: Fixed) -> (m: Member)
        ensures
            m@ == self.member_law(w_dg, n_z),
    {
        Member {
            part: Part::Instruments,
            origin: origin(),
            weight: self.weight_formula(w_dg, n_z),
            position: self.cg_formula(),
        }
    }
}

impl Component for Instruments {
    /// The part as `table` describes it: each field is the value under its
    /// symbol, or absent where the table has none.
    open spec fn from_table(table: Map<Seq<char>, Fixed>) -> Instruments {
        Instruments {
            k_r: lookup(table, "k_r"@),
            n_c: lookup(table, "n_c"@),
            n_en: lookup(table, "n_en"@),
            l_f: lookup(table, "l_f"@),
            b_w: lookup(table, "b_w"@),
            cg: Point {
                x: lookup(table, "x_cg_instruments"@),
                y: lookup(table, "y_cg_instruments"@),
                z: lookup(table, "z_cg_instruments"@),
            },
        }
    }

    /// Takes from `params` what the part needs. This never fails: a value
    /// that is absent is missed only when it is used.
    fn new(params: &Params) -> (r: Self) {
        Self {
            k_r: params.get("k_r"),
            n_c: params.get("n_c"),
            n_en: params.get("n_en"),
            l_f: params.get("l_f"),
            b_w: params.get("b_w"),
            cg: Point::new(
                params.get("x_cg_instruments"),
                params.get("y_cg_instruments"),
                params.get("z_cg_instruments"),
            ),
        }
    }

    open spec fn weight_is(
        &self,
        answers: Answers,
        w_dg: Fixed,
        n_z: Fixed,
        r: Result<Weight, Failure>,
    ) -> bool {
        weighs(answers, Part::Instruments, self.weight_law(w_dg, n_z), r)
    }

    /// The weight of the part: the value that `eval` gives the formula of its
    /// weight, which must not be negative.
    fn weight<F: Fn(&Formula) -> Option<Fixed>>(
        &self,
        w_dg: Fixed,
        n_z: Fixed,
        eval: &F,
    ) -> (r: Result<Weight, Failure>)
    {
        weigh(Part::Instruments, &self.weight_formula(w_dg, n_z), eval)
    }

    proof fn lemma_weight_is_pure(
        &self,
        answers: Answers,
        w_dg: Fixed,
        n_z: Fixed,
        r1: Result<Weight, Failure>,
        r2: Result<Weight, Failure>,
    ) {
        lemma_weight_is_pure(answers, Part::Instruments, self.weight_law(w_dg, n_z), r1, r2);
    }

    open spec fn cg_is(
        &self,
        answers: Answers,
        w_dg: Fixed,
        n_z: Fixed,
        r: Result<Point<Fixed>, Failure>,
    ) -> bool {
        locates(answers, Part::Instruments, at_origin(), self.cg_law(), r)
    }

    /// The centre of gravity of the part, as it was given. Neither the two
    /// numbers nor the evaluator are used.
    #[allow(unused_variables)]
    fn cg<F: Fn(&Formula) -> Option<Fixed>>(
        &self,
        w_dg: Fixed,
        n_z: Fixed,
        eval: &F,
    ) -> (r: Result<Point<Fixed>, Failure>)
        ensures
            self.cg_law() is Ok ==> r == Ok::<Point<Fixed>, Failure>(
                Point { x: self.cg.x.unwrap(), y: self.cg.y.unwrap(), z: self.cg.z.unwrap() },
            ),
    {
        let r = locate(Part::Instruments, origin(), &self.cg_formula(), eval);
        proof {
            if self.cg_law() is Ok {
                let p = self.cg_law()->Ok_0;
                lemma_constant(self.cg.x.unwrap());
                lemma_constant(self.cg.y.unwrap());
                lemma_constant(self.cg.z.unwrap());
                lemma_polynomial_position(*eval, Part::Instruments, at_origin(), p, r);
            }
        }
        r
    }

    proof fn lemma_cg_is_pure(
        &self,
        answers: Answers,
        w_dg: Fixed,
        n_z: Fixed,
        r1: Result<Point<Fixed>, Failure>,
        r2: Result<Point<Fixed>, Failure>,
    ) {
        lemma_cg_is_pure(answers, Part::Instruments, at_origin(), self.cg_law(), r1, r2);
    }
}

/// The avionics.
#[derive(Clone, Copy, Debug)]
pub struct Avionics {
    /// Weight of the avionics before installation in lb.
    pub w_uav: Option<Fixed>,
    /// Centre of gravity in ft.
    pub cg: Point<Option<Fixed>>,
}

impl Avionics {
    /// The weight in lb for the design gross weight `w_dg` (`W`, in lb) and the
    /// ultimate load factor `n_z` (`Nz`):
    ///
    /// `1.73 W_uav^0.983`
    ///
    /// Fails with the first of its inputs that is absent.
    pub open spec fn weight_law(&self, w_dg: Fixed, n_z: Fixed) -> Result<Seq<TermView>, Failure> {
        if self.w_uav is None {
            absent(Part::Avionics, "w_uav")
        } else {
            let w_uav = self.w_uav.unwrap();
            Ok(
                seq![
                    term(1_730_000, seq![power(w_uav, 983_000)]),
                ],
            )
        }
    }

    /// The formula of the weight, as [`Self::weight_law`] states it.
    #[allow(unused_variables)]
    pub fn weight_formula(&self, w_dg: Fixed, n_z: Fixed) -> (r: Result<Formula, Failure>)
        ensures
            law(r) == self.weight_law(w_dg, n_z),
    {
        let w_uav = need(self.w_uav, Part::Avionics, "w_uav")?;
        let formula_factors = vec![Factor::power(w_uav, 983_000)];
        assert(formula_factors@ =~= self.weight_law(w_dg, n_z)->Ok_0[0].factors);
        let formula = Formula::single(1_730_000, formula_factors);
        assert(formula@ =~~= self.weight_law(w_dg, n_z)->Ok_0);
        Ok(formula)
    }

    /// The centre of gravity in ft, as it was given. Fails with the first of
    /// its coordinates that is absent.
    pub open spec fn cg_law(&self) -> Result<Point<Seq<TermView>>, Failure> {
        if self.cg.x is None {
            absent(Part::Avionics, "x_cg_avionics")
        } else if self.cg.y is None {
            absent(Part::Avionics, "y_cg_avionics")
        } else if self.cg.z is None {
            absent(Part::Avionics, "z_cg_avionics")
        } else {
            let x_cg_avionics = self.cg.x.unwrap();
            let y_cg_avionics = self.cg.y.unwrap();
            let z_cg_avionics = self.cg.z.unwrap();
            Ok(
                Point {
                    x: constant(x_cg_avionics),
                    y: constant(y_cg_avionics),
                    z: constant(z_cg_avionics),
                },
            )
        }
    }

    /// The formulas of the centre of gravity, as [`Self::cg_law`] states them.
    pub fn cg_formula(&self) -> (r: Result<Point<Formula>, Failure>)
        ensures
            place_law(r) == self.cg_law(),
    {
        let x_cg_avionics = need(self.cg.x, Part::Avionics, "x_cg_avionics")?;
        let y_cg_avionics = need(self.cg.y, Part::Avionics, "y_cg_avionics")?;
        let z_cg_avionics = need(self.cg.z, Part::Avionics, "z_cg_avionics")?;
        Ok(
            Point::new(
                Formula::constant(x_cg_avionics),
                Formula::constant(y_cg_avionics),
                Formula::constant(z_cg_avionics),
            ),
        )
    }

    /// The part as a member of a group.
    pub open spec fn member_law(&self, w_dg: Fixed, n_z: Fixed) -> MemberView {
        MemberView {
            part: Part::Avionics,
            origin: at_origin(),
            weight: self.weight_law(w_dg, n_z),
            position: self.cg_law(),
        }
    }

    /// The part as a member of a group.
    pub fn member(&self, w_dg: Fixed, n_z: Fixed) -> (m: Member)
        ensures
            m@ == self.member_law(w_dg, n_z),
    {
        Member {
            part: Part::Avionics,
            origin: origin(),
            weight: self.weight_formula(w_dg, n_z),
            position: self.cg_formula(),
        }
    }
}

impl Component for Avionics {
    /// The part as `table` describes it: each field is the value under its
    /// symbol, or absent where the table has none.
    open spec fn from_table(table: Map<Seq<char>, Fixed>) -> Avionics {
        Avionics {
            w_uav: lookup(table, "w_uav"@),
            cg: Point {
                x: lookup(table, "x_cg_avionics"@),
                y: lookup(table, "y_cg_avionics"@),
                z: lookup(table, "z_cg_avionics"@),
            },
        }
    }

    /// Takes from `params` what the part needs. This never fails: a value
    /// that is absent is missed only when it is used.
    fn new(params: &Params) -> (r: Self) {
        Self {
            w_uav: params.get("w_uav"),
            cg: Point::new(
                params.get("x_cg_avionics"),
                params.get("y_cg_avionics"),
                params.get("z_cg_avionics"),
            ),
        }
    }

    open spec fn weight_is(
        &self,
        answers: Answers,
        w_dg: Fixed,
        n_z: Fixed,
        r: Result<Weight, Failure>,
    ) -> bool {
        weighs(answers, Part::Avionics, self.weight_law(w_dg, n_z), r)
    }

    /// The weight of the part: the value that `eval` gives the formula of its
    /// weight, which must not be negative.
    fn weight<F: Fn(&Formula) -> Option<Fixed>>(
        &self,
        w_dg: Fixed,
        n_z: Fixed,
        eval: &F,
    ) -> (r: Result<Weight, Failure>)
    {
        weigh(Part::Avionics, &self.weight_formula(w_dg, n_z), eval)
    }

    proof fn lemma_weight_is_pure(
        &self,
        answers: Answers,
        w_dg: Fixed,
        n_z: Fixed,
        r1: Result<Weight, Failure>,
        r2: Result<Weight, Failure>,
    ) {
        lemma_weight_is_pure(answers, Part::Avionics, self.weight_law(w_dg, n_z), r1, r2);
    }

    open spec fn cg_is(
        &self,
        answers: Answers,
        w_dg: Fixed,
        n_z: Fixed,
        r: Result<Point<Fixed>, Failure>,
    ) -> bool {
        locates(answers, Part::Avionics, at_origin(), self.cg_law(), r)
    }

    /// The centre of gravity of the part, as it was given. Neither the two
    /// numbers nor the evaluator are used.
    #[allow(unused_variables)]
    fn cg<F: Fn(&Formula) -> Option<Fixed>>(
        &self,
        w_dg: Fixed,
        n_z: Fixed,
        eval: &F,
    ) -> (r: Result<Point<Fixed>, Failure>)
        ensures
            self.cg_law() is Ok ==> r == Ok::<Point<Fixed>, Failure>(
                Point { x: self.cg.x.unwrap(), y: self.cg.y.unwrap(), z: self.cg.z.unwrap() },
            ),
    {
        let r = locate(Part::Avionics, origin(), &self.cg_formula(), eval);
        proof {
            if self.cg_law() is Ok {
                let p = self.cg_law()->Ok_0;
                lemma_constant(self.cg.x.unwrap());
                lemma_constant(self.cg.y.unwrap());
                lemma_constant(self.cg.z.unwrap());
                lemma_polynomial_position(*eval, Part::Avionics, at_origin(), p, r);
            }
        }
        r
    }

    proof fn lemma_cg_is_pure(
        &self,
        answers: Answers,
        w_dg: Fixed,
        n_z: Fixed,
        r1: Result<Point<Fixed>, Failure>,
        r2: Result<Point<Fixed>, Failure>,
    ) {
        lemma_cg_is_pure(answers, Part::Avionics, at_origin(), self.cg_law(), r1, r2);
    }
}

/// The flight controls.
#[derive(Clone, Copy, Debug)]
pub struct FlightControls {
    /// Number of functions performed by the controls.
    pub n_f: Option<Fixed>,
    /// Total area of the control surfaces in ft^2.
    pub s_cs: Option<Fixed>,
    /// Moment of inertia in yaw in lb ft^2.
    pub i_y: Option<Fixed>,
    /// Number of mechanical functions.
    pub n_m: Option<Fixed>,
    /// Centre of gravity in ft.
    pub cg: Point<Option<Fixed>>,
}

impl FlightControls {
    /// The weight in lb for the design gross weight `w_dg` (`W`, in lb) and the
    /// ultimate load factor `n_z` (`Nz`):
    ///
    /// `145.9 N_f^0.554 S_cs^0.2 (I_y / 1000000)^0.07 / (1 + N_m/N_f)`
    ///
    /// The divisor is stated as `(N_f + N_m) / N_f`.
    /// The power of a product with a constant is stated as the product of the
    /// powers.
    /// Fails with the first of its inputs that is absent.
    /// Else it is out of range where `n_f + n_m` cannot be held.
    /// Else it is invalid geometry where `n_f` or `n_f + n_m` is not positive.
    pub open spec fn weight_law(&self, w_dg: Fixed, n_z: Fixed) -> Result<Seq<TermView>, Failure> {
        if self.n_f is None {
            absent(Part::FlightControls, "n_f")
        } else if self.s_cs is None {
            absent(Part::FlightControls, "s_cs")
        } else if self.i_y is None {
            absent(Part::FlightControls, "i_y")
        } else if self.n_m is None {
            absent(Part::FlightControls, "n_m")
        } else {
            let n_f = self.n_f.unwrap();
            let s_cs = self.s_cs.unwrap();
            let i_y = self.i_y.unwrap();
            let n_m = self.n_m.unwrap();
            if Fixed::sum(n_f, n_m) is None {
                Err(Failure::OutOfRange { part: Part::FlightControls })
            } else {
                let all_functions = Fixed::sum(n_f, n_m).unwrap();
                if !(n_f.raw > 0 && all_functions.raw > 0) {
                    Err(Failure::InvalidGeometry { part: Part::FlightControls })
                } else {
                    Ok(
                        seq![
                            term(
                                145_900_000,
                                seq![
                                    power(n_f, 554_000), power(s_cs, 200_000),
                                    power(i_y, 70_000), power(Fixed { raw: 1 }, 70_000),
                                    times(n_f), power(all_functions, -1_000_000),
                                ],
                            ),
                        ],
                    )
                }
            }
        }
    }

    /// The formula of the weight, as [`Self::weight_law`] states it.
    #[allow(unused_variables)]
    pub fn weight_formula(&self, w_dg: Fixed, n_z: Fixed) -> (r: Result<Formula, Failure>)
        ensures
            law(r) == self.weight_law(w_dg, n_z),
    {
        let n_f = need(self.n_f, Part::FlightControls, "n_f")?;
        let s_cs = need(self.s_cs, Part::FlightControls, "s_cs")?;
        let i_y = need(self.i_y, Part::FlightControls, "i_y")?;
        let n_m = need(self.n_m, Part::FlightControls, "n_m")?;
        let all_functions = match n_f.checked_add(n_m) {
            Some(v) => v,
            None => {
                return Err(Failure::OutOfRange { part: Part::FlightControls });
            },
        };
        if !(n_f.raw > 0 && all_functions.raw > 0) {
            return Err(Failure::InvalidGeometry { part: Part::FlightControls });
        }
        let formula_factors = vec![
            Factor::power(n_f, 554_000), Factor::power(s_cs, 200_000),
            Factor::power(i_y, 70_000), Factor::power(Fixed { raw: 1 }, 70_000),
            Factor::times(n_f), Factor::power(all_functions, -1_000_000),
        ];
        assert(formula_factors@ =~= self.weight_law(w_dg, n_z)->Ok_0[0].factors);
        let formula = Formula::single(145_900_000, formula_factors);
        assert(formula@ =~~= self.weight_law(w_dg, n_z)->Ok_0);
        Ok(formula)
    }

    /// The centre of gravity in ft, as it was given. Fails with the first of
    /// its coordinates that is absent.
    pub open spec fn cg_law(&self) -> Result<Point<Seq<TermView>>, Failure> {
        if self.cg.x is None {
            absent(Part::FlightControls, "x_cg_flight_controls")
        } else if self.cg.y is None {
            absent(Part::FlightControls, "y_cg_flight_controls")
        } else if self.cg.z is None {
            absent(Part::FlightControls, "z_cg_flight_controls")
        } else {
            let x_cg_flight_controls = self.cg.x.unwrap();
            let y_cg_flight_controls = self.cg.y.unwrap();
            let z_cg_flight_controls = self.cg.z.unwrap();
            Ok(
                Point {
                    x: constant(x_cg_flight_controls),
                    y: constant(y_cg_flight_controls),
                    z: constant(z_cg_flight_controls),
                },
            )
        }
    }

    /// The formulas of the centre of gravity, as [`Self::cg_law`] states them.
    pub fn cg_formula(&self) -> (r: Result<Point<Formula>, Failure>)
        ensures
            place_law(r) == self.cg_law(),
    {
        let x_cg_flight_controls = need(self.cg.x, Part::FlightControls, "x_cg_flight_controls")?;
        let y_cg_flight_controls = need(self.cg.y, Part::FlightControls, "y_cg_flight_controls")?;
        let z_cg_flight_controls = need(self.cg.z, Part::FlightControls, "z_cg_flight_controls")?;
        Ok(
            Point::new(
                Formula::constant(x_cg_flight_controls),
                Formula::constant(y_cg_flight_controls),
                Formula::constant(z_cg_flight_controls),
            ),
        )
    }

    /// The part as a member of a group.
    pub open spec fn member_law(&self, w_dg: Fixed, n_z: Fixed) -> MemberView {
        MemberView {
            part: Part::FlightControls,
            origin: at_origin(),
            weight: self.weight_law(w_dg, n_z),
            position: self.cg_law(),
        }
    }

    /// The part as a member of a group.
    pub fn member(&self, w_dg: Fixed, n_z: Fixed) -> (m: Member)
        ensures
            m@ == self.member_law(w_dg, n_z),
    {
        Member {
            part: Part::FlightControls,
            origin: origin(),
            weight: self.weight_formula(w_dg, n_z),
            position: self.cg_formula(),
        }
    }
}

impl Component for FlightControls {
    /// The part as `table` describes it: each field is the value under its
    /// symbol, or absent where the table has none.
    open spec fn from_table(table: Map<Seq<char>, Fixed>) -> FlightControls {
        FlightControls {
            n_f: lookup(table, "n_f"@),
            s_cs: lookup(table, "s_cs"@),
            i_y: lookup(table, "i_y"@),
            n_m: lookup(table, "n_m"@),
            cg: Point {
                x: lookup(table, "x_cg_flight_controls"@),
                y: lookup(table, "y_cg_flight_controls"@),
                z: lookup(table, "z_cg_flight_controls"@),
            },
        }
    }

    /// Takes from `params` what the part needs. This never fails: a value
    /// that is absent is missed only when it is used.
    fn new(params: &Params) -> (r: Self) {
        Self {
            n_f: params.get("n_f"),
            s_cs: params.get("s_cs"),
            i_y: params.get("i_y"),
            n_m: params.get("n_m"),
            cg: Point::new(
                params.get("x_cg_flight_controls"),
                params.get("y_cg_flight_controls"),
                params.get("z_cg_flight_controls"),
            ),
        }
    }

    open spec fn weight_is(
        &self,
        answers: Answers,
        w_dg: Fixed,
        n_z: Fixed,
        r: Result<Weight, Failure>,
    ) -> bool {
        weighs(answers, Part::FlightControls, self.weight_law(w_dg, n_z), r)
    }

    /// The weight of the part: the value that `eval` gives the formula of its
    /// weight, which must not be negative.
    fn weight<F: Fn(&Formula) -> Option<Fixed>>(
        &self,
        w_dg: Fixed,
        n_z: Fixed,
        eval: &F,
    ) -> (r: Result<Weight, Failure>)
    {
        weigh(Part::FlightControls, &self.weight_formula(w_dg, n_z), eval)
    }

    proof fn lemma_weight_is_pure(
        &self,
        answers: Answers,
        w_dg: Fixed,
        n_z: Fixed,
        r1: Result<Weight, Failure>,
        r2: Result<Weight, Failure>,
    ) {
        lemma_weight_is_pure(answers, Part::FlightControls, self.weight_law(w_dg, n_z), r1, r2);
    }

    open spec fn cg_is(
        &self,
        answers: Answers,
        w_dg: Fixed,
        n_z: Fixed,
        r: Result<Point<Fixed>, Failure>,
    ) -> bool {
        locates(answers, Part::FlightControls, at_origin(), self.cg_law(), r)
    }

    /// The centre of gravity of the part, as it was given. Neither the two
    /// numbers nor the evaluator are used.
    #[allow(unused_variables)]
    fn cg<F: Fn(&Formula) -> Option<Fixed>>(
        &self,
        w_dg: Fixed,
        n_z: Fixed,
        eval: &F,
    ) -> (r: Result<Point<Fixed>, Failure>)
        ensures
            self.cg_law() is Ok ==> r == Ok::<Point<Fixed>, Failure>(
                Point { x: self.cg.x.unwrap(), y: self.cg.y.unwrap(), z: self.cg.z.unwrap() },
            ),
    {
        let r = locate(Part::FlightControls, origin(), &self.cg_formula(), eval);
        proof {
            if self.cg_law() is Ok {
                let p = self.cg_law()->Ok_0;
                lemma_constant(self.cg.x.unwrap());
                lemma_constant(self.cg.y.unwrap());
                lemma_constant(self.cg.z.unwrap());
                lemma_polynomial_position(*eval, Part::FlightControls, at_origin(), p, r);
            }
        }
        r
    }

    proof fn lemma_cg_is_pure(
        &self,
        answers: Answers,
        w_dg: Fixed,
        n_z: Fixed,
        r1: Result<Point<Fixed>, Failure>,
        r2: Result<Point<Fixed>, Failure>,
    ) {
        lemma_cg_is_pure(answers, Part::FlightControls, at_origin(), self.cg_law(), r1, r2);
    }
}

/// The installed auxiliary power unit.
#[derive(Clone, Copy, Debug)]
pub struct InstalledApu {
    /// Weight of the auxiliary power unit before installation in lb.
    pub w_apu: Option<Fixed>,
    /// Centre of gravity in ft.
    pub cg: Point<Option<Fixed>>,
}

impl InstalledApu {
    /// The weight in lb for the design gross weight `w_dg` (`W`, in lb) and the
    /// ultimate load factor `n_z` (`Nz`):
    ///
    /// `2.2 W_apu`
    ///
    /// Fails with the first of its inputs that is absent.
    pub open spec fn weight_law(&self, w_dg: Fixed, n_z: Fixed) -> Result<Seq<TermView>, Failure> {
        if self.w_apu is None {
            absent(Part::InstalledApu, "w_apu")
        } else {
            let w_apu = self.w_apu.unwrap();
            Ok(
                seq![
                    term(2_200_000, seq![times(w_apu)]),
                ],
            )
        }
    }

    /// The formula of the weight, as [`Self::weight_law`] states it.
    #[allow(unused_variables)]
    pub fn weight_formula(&self, w_dg: Fixed, n_z: Fixed) -> (r: Result<Formula, Failure>)
        ensures
            law(r) == self.weight_law(w_dg, n_z),
    {
        let w_apu = need(self.w_apu, Part::InstalledApu, "w_apu")?;
        let formula_factors = vec![Factor::times(w_apu)];
        assert(formula_factors@ =~= self.weight_law(w_dg, n_z)->Ok_0[0].factors);
        let formula = Formula::single(2_200_000, formula_factors);
        assert(formula@ =~~= self.weight_law(w_dg, n_z)->Ok_0);
        Ok(formula)
    }

    /// The centre of gravity in ft, as it was given. Fails with the first of
    /// its coordinates that is absent.
    pub open spec fn cg_law(&self) -> Result<Point<Seq<TermView>>, Failure> {
        if self.cg.x is None {
            absent(Part::InstalledApu, "x_cg_installed_apu")
        } else if self.cg.y is None {
            absent(Part::InstalledApu, "y_cg_installed_apu")
        } else if self.cg.z is None {
            absent(Part::InstalledApu, "z_cg_installed_apu")
        } else {
            let x_cg_installed_apu = self.cg.x.unwrap();
            let y_cg_installed_apu = self.cg.y.unwrap();
            let z_cg_installed_apu = self.cg.z.unwrap();
            Ok(
                Point {
                    x: constant(x_cg_installed_apu),
                    y: constant(y_cg_installed_apu),
                    z: constant(z_cg_installed_apu),
                },
            )
        }
    }

    /// The formulas of the centre of gravity, as [`Self::cg_law`] states them.
    pub fn cg_formula(&self) -> (r: Result<Point<Formula>, Failure>)
        ensures
            place_law(r) == self.cg_law(),
    {
        let x_cg_installed_apu = need(self.cg.x, Part::InstalledApu, "x_cg_installed_apu")?;
        let y_cg_installed_apu = need(self.cg.y, Part::InstalledApu, "y_cg_installed_apu")?;
        let z_cg_installed_apu = need(self.cg.z, Part::InstalledApu, "z_cg_installed_apu")?;
        Ok(
            Point::new(
                Formula::constant(x_cg_installed_apu),
                Formula::constant(y_cg_installed_apu),
                Formula::constant(z_cg_installed_apu),
            ),
        )
    }

    /// The part as a member of a group.
    pub open spec fn member_law(&self, w_dg: Fixed, n_z: Fixed) -> MemberView {
        MemberView {
            part: Part::InstalledApu,
            origin: at_origin(),
            weight: self.weight_law(w_dg, n_z),
            position: self.cg_law(),
        }
    }

    /// The part as a member of a group.
    pub fn member(&self, w_dg: Fixed, n_z: Fixed) -> (m: Member)
        ensures
            m@ == self.member_law(w_dg, n_z),
    {
        Member {
            part: Part::InstalledApu,
            origin: origin(),
            weight: self.weight_formula(w_dg, n_z),
            position: self.cg_formula(),
        }
    }
}

impl Component for InstalledApu {
    /// The part as `table` describes it: each field is the value under its
    /// symbol, or absent where the table has none.
    open spec fn from_table(table: Map<Seq<char>, Fixed>) -> InstalledApu {
        InstalledApu {
            w_apu: lookup(table, "w_apu"@),
            cg: Point {
                x: lookup(table, "x_cg_installed_apu"@),
                y: lookup(table, "y_cg_installed_apu"@),
                z: lookup(table, "z_cg_installed_apu"@),
            },
        }
    }

    /// Takes from `params` what the part needs. This never fails: a value
    /// that is absent is missed only when it is used.
    fn new(params: &Params) -> (r: Self) {
        Self {
            w_apu: params.get("w_apu"),
            cg: Point::new(
                params.get("x_cg_installed_apu"),
                params.get("y_cg_installed_apu"),
                params.get("z_cg_installed_apu"),
            ),
        }
    }

    open spec fn weight_is(
        &self,
        answers: Answers,
        w_dg: Fixed,
        n_z: Fixed,
        r: Result<Weight, Failure>,
    ) -> bool {
        weighs(answers, Part::InstalledApu, self.weight_law(w_dg, n_z), r)
    }

    /// The weight of the part: the value of its formula, a polynomial, which
    /// must not be negative. The evaluator is not asked.
    fn weight<F: Fn(&Formula) -> Option<Fixed>>(
        &self,
        w_dg: Fixed,
        n_z: Fixed,
        eval: &F,
    ) -> (r: Result<Weight, Failure>)
        ensures
            self.weight_law(w_dg, n_z) matches Ok(terms) ==> r == settled_weight(
                Part::InstalledApu,
                polynomial_value(terms),
            ),
    {
        let r = weigh(Part::InstalledApu, &self.weight_formula(w_dg, n_z), eval);
        proof {
            if self.weight_law(w_dg, n_z) is Ok {
                let terms = self.weight_law(w_dg, n_z)->Ok_0;
                assert(polynomial(terms));
                lemma_polynomial_weight(*eval, Part::InstalledApu, terms, r);
            }
        }
        r
    }

    proof fn lemma_weight_is_pure(
        &self,
        answers: Answers,
        w_dg: Fixed,
        n_z: Fixed,
        r1: Result<Weight, Failure>,
        r2: Result<Weight, Failure>,
    ) {
        lemma_weight_is_pure(answers, Part::InstalledApu, self.weight_law(w_dg, n_z), r1, r2);
    }

    open spec fn cg_is(
        &self,
        answers: Answers,
        w_dg: Fixed,
        n_z: Fixed,
        r: Result<Point<Fixed>, Failure>,
    ) -> bool {
        locates(answers, Part::InstalledApu, at_origin(), self.cg_law(), r)
    }

    /// The centre of gravity of the part, as it was given. Neither the two
    /// numbers nor the evaluator are used.
    #[allow(unused_variables)]
    fn cg<F: Fn(&Formula) -> Option<Fixed>>(
        &self,
        w_dg: Fixed,
        n_z: Fixed,
        eval: &F,
    ) -> (r: Result<Point<Fixed>, Failure>)
        ensures
            self.cg_law() is Ok ==> r == Ok::<Point<Fixed>, Failure>(
                Point { x: self.cg.x.unwrap(), y: self.cg.y.unwrap(), z: self.cg.z.unwrap() },
            ),
    {
        let r = locate(Part::InstalledApu, origin(), &self.cg_formula(), eval);
        proof {
            if self.cg_law() is Ok {
                let p = self.cg_law()->Ok_0;
                lemma_constant(self.cg.x.unwrap());
                lemma_constant(self.cg.y.unwrap());
                lemma_constant(self.cg.z.unwrap());
                lemma_polynomial_position(*eval, Part::InstalledApu, at_origin(), p, r);
            }
        }
        r
    }

    proof fn lemma_cg_is_pure(
        &self,
        answers: Answers,
        w_dg: Fixed,
        n_z: Fixed,
        r1: Result<Point<Fixed>, Failure>,
        r2: Result<Point<Fixed>, Failure>,
    ) {
        lemma_cg_is_pure(answers, Part::InstalledApu, at_origin(), self.cg_law(), r1, r2);
    }
}

/// The anti-icing system.
#[derive(Clone, Copy, Debug)]
pub struct AntiIcing {
    /// Centre of gravity in ft.
    pub cg: Point<Option<Fixed>>,
}

impl AntiIcing {
    /// The weight in lb for the design gross weight `w_dg` (`W`, in lb) and the
    /// ultimate load factor `n_z` (`Nz`):
    ///
    /// `0.002 W`
    pub open spec fn weight_law(&self, w_dg: Fixed, n_z: Fixed) -> Result<Seq<TermView>, Failure> {
        Ok(
            seq![
                term(2_000, seq![times(w_dg)]),
            ],
        )
    }

    /// The formula of the weight, as [`Self::weight_law`] states it.
    #[allow(unused_variables)]
    pub fn weight_formula(&self, w_dg: Fixed, n_z: Fixed) -> (r: Result<Formula, Failure>)
        ensures
            law(r) == self.weight_law(w_dg, n_z),
    {
        let formula_factors = vec![Factor::times(w_dg)];
        assert(formula_factors@ =~= self.weight_law(w_dg, n_z)->Ok_0[0].factors);
        let formula = Formula::single(2_000, formula_factors);
        assert(formula@ =~~= self.weight_law(w_dg, n_z)->Ok_0);
        Ok(formula)
    }

    /// The centre of gravity in ft, as it was given. Fails with the first of
    /// its coordinates that is absent.
    pub open spec fn cg_law(&self) -> Result<Point<Seq<TermView>>, Failure> {
        if self.cg.x is None {
            absent(Part::AntiIcing, "x_cg_anti_icing")
        } else if self.cg.y is None {
            absent(Part::AntiIcing, "y_cg_anti_icing")
        } else if self.cg.z is None {
            absent(Part::AntiIcing, "z_cg_anti_icing")
        } else {
            let x_cg_anti_icing = self.cg.x.unwrap();
            let y_cg_anti_icing = self.cg.y.unwrap();
            let z_cg_anti_icing = self.cg.z.unwrap();
            Ok(
                Point {
                    x: constant(x_cg_anti_icing),
                    y: constant(y_cg_anti_icing),
                    z: constant(z_cg_anti_icing),
                },
            )
        }
    }

    /// The formulas of the centre of gravity, as [`Self::cg_law`] states them.
    pub fn cg_formula(&self) -> (r: Result<Point<Formula>, Failure>)
        ensures
            place_law(r) == self.cg_law(),
    {
        let x_cg_anti_icing = need(self.cg.x, Part::AntiIcing, "x_cg_anti_icing")?;
        let y_cg_anti_icing = need(self.cg.y, Part::AntiIcing, "y_cg_anti_icing")?;
        let z_cg_anti_icing = need(self.cg.z, Part::AntiIcing, "z_cg_anti_icing")?;
        Ok(
            Point::new(
                Formula::constant(x_cg_anti_icing),
                Formula::constant(y_cg_anti_icing),
                Formula::constant(z_cg_anti_icing),
            ),
        )
    }

    /// The part as a member of a group.
    pub open spec fn member_law(&self, w_dg: Fixed, n_z: Fixed) -> MemberView {
        MemberView {
            part: Part::AntiIcing,
            origin: at_origin(),
            weight: self.weight_law(w_dg, n_z),
            position: self.cg_law(),
        }
    }

    /// The part as a member of a group.
    pub fn member(&self, w_dg: Fixed, n_z: Fixed) -> (m: Member)
        ensures
            m@ == self.member_law(w_dg, n_z),
    {
        Member {
            part: Part::AntiIcing,
            origin: origin(),
            weight: self.weight_formula(w_dg, n_z),
            position: self.cg_formula(),
        }
    }
}

impl Component for AntiIcing {
    /// The part as `table` describes it: each field is the value under its
    /// symbol, or absent where the table has none.
    open spec fn from_table(table: Map<Seq<char>, Fixed>) -> AntiIcing {
        AntiIcing {
            cg: Point {
                x: lookup(table, "x_cg_anti_icing"@),
                y: lookup(table, "y_cg_anti_icing"@),
                z: lookup(table, "z_cg_anti_icing"@),
            },
        }
    }

    /// Takes from `params` what the part needs. This never fails: a value
    /// that is absent is missed only when it is used.
    fn new(params: &Params) -> (r: Self) {
        Self {
            cg: Point::new(
                params.get("x_cg_anti_icing"),
                params.get("y_cg_anti_icing"),
                params.get("z_cg_anti_icing"),
            ),
        }
    }

    open spec fn weight_is(
        &self,
        answers: Answers,
        w_dg: Fixed,
        n_z: Fixed,
        r: Result<Weight, Failure>,
    ) -> bool {
        weighs(answers, Part::AntiIcing, self.weight_law(w_dg, n_z), r)
    }

    /// The weight of the part: the value of its formula, a polynomial, which
    /// must not be negative. The evaluator is not asked.
    fn weight<F: Fn(&Formula) -> Option<Fixed>>(
        &self,
        w_dg: Fixed,
        n_z: Fixed,
        eval: &F,
    ) -> (r: Result<Weight, Failure>)
        ensures
            self.weight_law(w_dg, n_z) matches Ok(terms) ==> r == settled_weight(
                Part::AntiIcing,
                polynomial_value(terms),
            ),
    {
        let r = weigh(Part::AntiIcing, &self.weight_formula(w_dg, n_z), eval);
        proof {
            if self.weight_law(w_dg, n_z) is Ok {
                let terms = self.weight_law(w_dg, n_z)->Ok_0;
                assert(polynomial(terms));
                lemma_polynomial_weight(*eval, Part::AntiIcing, terms, r);
            }
        }
        r
    }

    proof fn lemma_weight_is_pure(
        &self,
        answers: Answers,
        w_dg: Fixed,
        n_z: Fixed,
        r1: Result<Weight, Failure>,
        r2: Result<Weight, Failure>,
    ) {
        lemma_weight_is_pure(answers, Part::AntiIcing, self.weight_law(w_dg, n_z), r1, r2);
    }

    open spec fn cg_is(
        &self,
        answers: Answers,
        w_dg: Fixed,
        n_z: Fixed,
        r: Result<Point<Fixed>, Failure>,
    ) -> bool {
        locates(answers, Part::AntiIcing, at_origin(), self.cg_law(), r)
    }

    /// The centre of gravity of the part, as it was given. Neither the two
    /// numbers nor the evaluator are used.
    #[allow(unused_variables)]
    fn cg<F: Fn(&Formula) -> Option<Fixed>>(
        &self,
        w_dg: Fixed,
        n_z: Fixed,
        eval: &F,
    ) -> (r: Result<Point<Fixed>, Failure>)
        ensures
            self.cg_law() is Ok ==> r == Ok::<Point<Fixed>, Failure>(
                Point { x: self.cg.x.unwrap(), y: self.cg.y.unwrap(), z: self.cg.z.unwrap() },
            ),
    {
        let r = locate(Part::AntiIcing, origin(), &self.cg_formula(), eval);
        proof {
            if self.cg_law() is Ok {
                let p = self.cg_law()->Ok_0;
                lemma_constant(self.cg.x.unwrap());
                lemma_constant(self.cg.y.unwrap());
                lemma_constant(self.cg.z.unwrap());
                lemma_polynomial_position(*eval, Part::AntiIcing, at_origin(), p, r);
            }
        }
        r
    }

    proof fn lemma_cg_is_pure(
        &self,
        answers: Answers,
        w_dg: Fixed,
        n_z: Fixed,
        r1: Result<Point<Fixed>, Failure>,
        r2: Result<Point<Fixed>, Failure>,
    ) {
        lemma_cg_is_pure(answers, Part::AntiIcing, at_origin(), self.cg_law(), r1, r2);
    }
}

/// The handling gear.
#[derive(Clone, Copy, Debug)]
pub struct HandlingGear {
    /// Centre of gravity in ft.
    pub cg: Point<Option<Fixed>>,
}

impl HandlingGear {
    /// The weight in lb for the design gross weight `w_dg` (`W`, in lb) and the
    /// ultimate load factor `n_z` (`Nz`):
    ///
    /// `0.0003 W`
    pub open spec fn weight_law(&self, w_dg: Fixed, n_z: Fixed) -> Result<Seq<TermView>, Failure> {
        Ok(
            seq![
                term(300, seq![times(w_dg)]),
            ],
        )
    }

    /// The formula of the weight, as [`Self::weight_law`] states it.
    #[allow(unused_variables)]
    pub fn weight_formula(&self, w_dg: Fixed, n_z: Fixed) -> (r: Result<Formula, Failure>)
        ensures
            law(r) == self.weight_law(w_dg, n_z),
    {
        let formula_factors = vec![Factor::times(w_dg)];
        assert(formula_factors@ =~= self.weight_law(w_dg, n_z)->Ok_0[0].factors);
        let formula = Formula::single(300, formula_factors);
        assert(formula@ =~~= self.weight_law(w_dg, n_z)->Ok_0);
        Ok(formula)
    }

    /// The centre of gravity in ft, as it was given. Fails with the first of
    /// its coordinates that is absent.
    pub open spec fn cg_law(&self) -> Result<Point<Seq<TermView>>, Failure> {
        if self.cg.x is None {
            absent(Part::HandlingGear, "x_cg_handling_gear")
        } else if self.cg.y is None {
            absent(Part::HandlingGear, "y_cg_handling_gear")
        } else if self.cg.z is None {
            absent(Part::HandlingGear, "z_cg_handling_gear")
        } else {
            let x_cg_handling_gear = self.cg.x.unwrap();
            let y_cg_handling_gear = self.cg.y.unwrap();
            let z_cg_handling_gear = self.cg.z.unwrap();
            Ok(
                Point {
                    x: constant(x_cg_handling_gear),
                    y: constant(y_cg_handling_gear),
                    z: constant(z_cg_handling_gear),
                },
            )
        }
    }

    /// The formulas of the centre of gravity, as [`Self::cg_law`] states them.
    pub fn cg_formula(&self) -> (r: Result<Point<Formula>, Failure>)
        ensures
            place_law(r) == self.cg_law(),
    {
        let x_cg_handling_gear = need(self.cg.x, Part::HandlingGear, "x_cg_handling_gear")?;
        let y_cg_handling_gear = need(self.cg.y, Part::HandlingGear, "y_cg_handling_gear")?;
        let z_cg_handling_gear = need(self.cg.z, Part::HandlingGear, "z_cg_handling_gear")?;
        Ok(
            Point::new(
                Formula::constant(x_cg_handling_gear),
                Formula::constant(y_cg_handling_gear),
                Formula::constant(z_cg_handling_gear),
            ),
        )
    }

    /// The part as a member of a group.
    pub open spec fn member_law(&self, w_dg: Fixed, n_z: Fixed) -> MemberView {
        MemberView {
            part: Part::HandlingGear,
            origin: at_origin(),
            weight: self.weight_law(w_dg, n_z),
            position: self.cg_law(),
        }
    }

    /// The part as a member of a group.
    pub fn member(&self, w_dg: Fixed, n_z: Fixed) -> (m: Member)
        ensures
            m@ == self.member_law(w_dg, n_z),
    {
        Member {
            part: Part::HandlingGear,
            origin: origin(),
            weight: self.weight_formula(w_dg, n_z),
            position: self.cg_formula(),
        }
    }
}

impl Component for HandlingGear {
    /// The part as `table` describes it: each field is the value under its
    /// symbol, or absent where the table has none.
    open spec fn from_table(table: Map<Seq<char>, Fixed>) -> HandlingGear {
        HandlingGear {
            cg: Point {
                x: lookup(table, "x_cg_handling_gear"@),
                y: lookup(table, "y_cg_handling_gear"@),
                z: lookup(table, "z_cg_handling_gear"@),
            },
        }
    }

    /// Takes from `params` what the part needs. This never fails: a value
    /// that is absent is missed only when it is used.
    fn new(params: &Params) -> (r: Self) {
        Self {
            cg: Point::new(
                params.get("x_cg_handling_gear"),
                params.get("y_cg_handling_gear"),
                params.get("z_cg_handling_gear"),
            ),
        }
    }

    open spec fn weight_is(
        &self,
        answers: Answers,
        w_dg: Fixed,
        n_z: Fixed,
        r: Result<Weight, Failure>,
    ) -> bool {
        weighs(answers, Part::HandlingGear, self.weight_law(w_dg, n_z), r)
    }

    /// The weight of the part: the value of its formula, a polynomial, which
    /// must not be negative. The evaluator is not asked.
    fn weight<F: Fn(&Formula) -> Option<Fixed>>(
        &self,
        w_dg: Fixed,
        n_z: Fixed,
        eval: &F,
    ) -> (r: Result<Weight, Failure>)
        ensures
            self.weight_law(w_dg, n_z) matches Ok(terms) ==> r == settled_weight(
                Part::HandlingGear,
                polynomial_value(terms),
            ),
    {
        let r = weigh(Part::HandlingGear, &self.weight_formula(w_dg, n_z), eval);
        proof {
            if self.weight_law(w_dg, n_z) is Ok {
                let terms = self.weight_law(w_dg, n_z)->Ok_0;
                assert(polynomial(terms));
                lemma_polynomial_weight(*eval, Part::HandlingGear, terms, r);
            }
        }
        r
    }

    proof fn lemma_weight_is_pure(
        &self,
        answers: Answers,
        w_dg: Fixed,
        n_z: Fixed,
        r1: Result<Weight, Failure>,
        r2: Result<Weight, Failure>,
    ) {
        lemma_weight_is_pure(answers, Part::HandlingGear, self.weight_law(w_dg, n_z), r1, r2);
    }

    open spec fn cg_is(
        &self,
        answers: Answers,
        w_dg: Fixed,
        n_z: Fixed,
        r: Result<Point<Fixed>, Failure>,
    ) -> bool {
        locates(answers, Part::HandlingGear, at_origin(), self.cg_law(), r)
    }

    /// The centre of gravity of the part, as it was given. Neither the two
    /// numbers nor the evaluator are used.
    #[allow(unused_variables)]
    fn cg<F: Fn(&Formula) -> Option<Fixed>>(
        &self,
        w_dg: Fixed,
        n_z: Fixed,
        eval: &F,
    ) -> (r: Result<Point<Fixed>, Failure>)
        ensures
            self.cg_law() is Ok ==> r == Ok::<Point<Fixed>, Failure>(
                Point { x: self.cg.x.unwrap(), y: self.cg.y.unwrap(), z: self.cg.z.unwrap() },
            ),
    {
        let r = locate(Part::HandlingGear, origin(), &self.cg_formula(), eval);
        proof {
            if self.cg_law() is Ok {
                let p = self.cg_law()->Ok_0;
                lemma_constant(self.cg.x.unwrap());
                lemma_constant(self.cg.y.unwrap());
                lemma_constant(self.cg.z.unwrap());
                lemma_polynomial_position(*eval, Part::HandlingGear, at_origin(), p, r);
            }
        }
        r
    }

    proof fn lemma_cg_is_pure(
        &self,
        answers: Answers,
        w_dg: Fixed,
        n_z: Fixed,
        r1: Result<Point<Fixed>, Failure>,
        r2: Result<Point<Fixed>, Failure>,
    ) {
        lemma_cg_is_pure(answers, Part::HandlingGear, at_origin(), self.cg_law(), r1, r2);
    }
}

} // verus!
