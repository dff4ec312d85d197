//! The wing group.
use vstd::prelude::*;
use crate::components::Component;
use crate::components::balance::Balance;
use crate::components::evaluation::Answers;
use crate::components::evaluation::accepts_all;
use crate::components::evaluation::answers_of;
use crate::components::evaluation::lemma_polynomial_position;
use crate::components::evaluation::lemma_polynomial_weight;
use crate::components::evaluation::locate;
use crate::components::evaluation::locates;
use crate::components::evaluation::settled_weight;
use crate::components::evaluation::weigh;
use crate::components::evaluation::weighs;
use crate::components::formula::Factor;
use crate::components::formula::Formula;
use crate::components::formula::Term;
use crate::components::formula::TermView;
use crate::components::formula::constant;
use crate::components::formula::cosine;
use crate::components::formula::lemma_constant;
use crate::components::formula::polynomial;
use crate::components::formula::polynomial_value;
use crate::components::formula::power;
use crate::components::formula::tangent;
use crate::components::formula::term;
use crate::components::formula::times;
use crate::components::group::group_balance;
use crate::components::group::group_balances;
use crate::components::group::group_centres;
use crate::components::group::group_cg;
use crate::components::group::group_moment;
use crate::components::group::group_moments;
use crate::components::group::group_weighs;
use crate::components::group::group_weight;
use crate::components::group::totals;
use crate::components::laws::lemma_cg_is_pure;
use crate::components::laws::lemma_group_cg_is_pure;
use crate::components::laws::lemma_group_weight_is_pure;
use crate::components::laws::lemma_weight_is_pure;
use crate::components::member::Member;
use crate::components::member::MemberView;
use crate::components::member::absent;
use crate::components::member::acute;
use crate::components::member::at_origin;
use crate::components::member::is_acute;
use crate::components::member::law;
use crate::components::member::member_views;
use crate::components::member::move_to;
use crate::components::member::moved;
use crate::components::member::need;
use crate::components::member::origin;
use crate::components::member::place_law;
use crate::failure::Failure;
use crate::failure::Part;
use crate::params::Params;
use crate::params::lookup;
use crate::utils::fixed::Fixed;
use crate::utils::point::Point;
use crate::utils::weight::Weight;

verus! {

/// The wing group: the wing structure and what the wing carries.
#[derive(Clone, Copy, Debug)]
pub struct Wings {
    pub wings_structure: WingsStructure,
    pub nacelle: Nacelle,
    pub engine_controls: EngineControls,
    pub fuel_system: FuelSystem,
    pub engine_pneumatic_starter: EnginePneumaticStarter,
    /// The position of the wing root, from which the parts of the group are
    /// measured.
    pub root: Point<Fixed>,
}

impl Wings {
    /// The group with its root at `root`.
    pub fn at(self, root: Point<Fixed>) -> (r: Self)
        ensures
            r == (Wings { root, ..self }),
    {
        Wings { root, ..self }
    }

    /// The parts of the group in the order in which they are added up,
    /// with their positions measured from the root.
    pub open spec fn members_law(&self, w_dg: Fixed, n_z: Fixed) -> Seq<MemberView> {
        seq![
            moved(self.wings_structure.member_law(w_dg, n_z), self.root),
            moved(self.nacelle.member_law(w_dg, n_z), self.root),
            moved(self.engine_controls.member_law(w_dg, n_z), self.root),
            moved(self.fuel_system.member_law(w_dg, n_z), self.root),
            moved(self.engine_pneumatic_starter.member_law(w_dg, n_z), self.root),
        ]
    }

    /// The parts of the group in the order in which they are added up.
    pub fn members(&self, w_dg: Fixed, n_z: Fixed) -> (ms: Vec<Member>)
        ensures
            member_views(ms@) == self.members_law(w_dg, n_z),
    {
        let ms = vec![
            move_to(self.wings_structure.member(w_dg, n_z), self.root),
            move_to(self.nacelle.member(w_dg, n_z), self.root),
            move_to(self.engine_controls.member(w_dg, n_z), self.root),
            move_to(self.fuel_system.member(w_dg, n_z), self.root),
            move_to(self.engine_pneumatic_starter.member(w_dg, n_z), self.root),
        ];
        assert(member_views(ms@) =~= self.members_law(w_dg, n_z));
        ms
    }

    /// The weight of the group and its moments about the three axes. Fails
    /// with the failure of the first part that has no weight or no centre of
    /// gravity.
    pub fn balance<F: Fn(&Formula) -> Option<Fixed>>(
        &self,
        w_dg: Fixed,
        n_z: Fixed,
        eval: &F,
    ) -> (r: Result<Balance, Failure>)
        requires
            accepts_all(*eval),
        ensures
            group_balances(answers_of(*eval), self.members_law(w_dg, n_z), Part::Wings, totals(r)),
    {
        group_balance(&self.members(w_dg, n_z), Part::Wings, eval)
    }

    /// The moments of the group about the three axes: the sum, over its parts,
    /// of position times weight.
    pub fn pos_times_weight<F: Fn(&Formula) -> Option<Fixed>>(
        &self,
        w_dg: Fixed,
        n_z: Fixed,
        eval: &F,
    ) -> (r: Result<Point<i128>, Failure>)
        requires
            accepts_all(*eval),
        ensures
            group_moments(answers_of(*eval), self.members_law(w_dg, n_z), Part::Wings, r),
    {
        group_moment(&self.members(w_dg, n_z), Part::Wings, eval)
    }
}

impl Component for Wings {
    /// The group as `table` describes it, with its root at the origin.
    open spec fn from_table(table: Map<Seq<char>, Fixed>) -> Wings {
        Wings {
            wings_structure: WingsStructure::from_table(table),
            nacelle: Nacelle::from_table(table),
            engine_controls: EngineControls::from_table(table),
            fuel_system: FuelSystem::from_table(table),
            engine_pneumatic_starter: EnginePneumaticStarter::from_table(table),
            root: at_origin(),
        }
    }

    /// Builds every part of the group from `params`.
    fn new(params: &Params) -> (r: Self) {
        Self {
            wings_structure: WingsStructure::new(params),
            nacelle: Nacelle::new(params),
            engine_controls: EngineControls::new(params),
            fuel_system: FuelSystem::new(params),
            engine_pneumatic_starter: EnginePneumaticStarter::new(params),
            root: origin(),
        }
    }

    open spec fn weight_is(
        &self,
        answers: Answers,
        w_dg: Fixed,
        n_z: Fixed,
        r: Result<Weight, Failure>,
    ) -> bool {
        group_weighs(answers, self.members_law(w_dg, n_z), Part::Wings, r)
    }

    /// The weight of the group: the sum of the weights of its parts. Fails
    /// with the failure of the first part that has no weight.
    fn weight<F: Fn(&Formula) -> Option<Fixed>>(
        &self,
        w_dg: Fixed,
        n_z: Fixed,
        eval: &F,
    ) -> (r: Result<Weight, Failure>)
    {
        group_weight(&self.members(w_dg, n_z), Part::Wings, eval)
    }

    proof fn lemma_weight_is_pure(
        &self,
        answers: Answers,
        w_dg: Fixed,
        n_z: Fixed,
        r1: Result<Weight, Failure>,
        r2: Result<Weight, Failure>,
    ) {
        lemma_group_weight_is_pure(answers, self.members_law(w_dg, n_z), Part::Wings, r1, r2);
    }

    open spec fn cg_is(
        &self,
        answers: Answers,
        w_dg: Fixed,
        n_z: Fixed,
        r: Result<Point<Fixed>, Failure>,
    ) -> bool {
        group_centres(answers, self.members_law(w_dg, n_z), Part::Wings, r)
    }

    /// The centre of gravity of the group: its moments divided by its weight.
    /// Fails as the balance does, and as invalid geometry where the group
    /// weighs nothing.
    fn cg<F: Fn(&Formula) -> Option<Fixed>>(
        &self,
        w_dg: Fixed,
        n_z: Fixed,
        eval: &F,
    ) -> (r: Result<Point<Fixed>, Failure>)
    {
        group_cg(&self.members(w_dg, n_z), Part::Wings, eval)
    }

    proof fn lemma_cg_is_pure(
        &self,
        answers: Answers,
        w_dg: Fixed,
        n_z: Fixed,
        r1: Result<Point<Fixed>, Failure>,
        r2: Result<Point<Fixed>, Failure>,
    ) {
        lemma_group_cg_is_pure(answers, self.members_law(w_dg, n_z), Part::Wings, r1, r2);
    }
}

/// The structure of the wing.
#[derive(Clone, Copy, Debug)]
pub struct WingsStructure {
    /// Reference wing area in ft^2.
    pub s_w: Option<Fixed>,
    /// Wing aspect ratio.
    pub ar: Option<Fixed>,
    /// Wing taper ratio.
    pub lambda: Option<Fixed>,
    /// Area of the wing-mounted control surfaces in ft^2.
    pub s_csw: Option<Fixed>,
    /// Thickness to chord ratio at the wing root.
    pub t_c_ratio_root: Option<Fixed>,
    /// Sweep of the quarter-chord line in rad.
    pub sweep: Option<Fixed>,
    /// Distance between forward and aft spar at the centreline in ft.
    pub delta_fs_as: Option<Fixed>,
    /// Position of the forward spar at the centreline, aft of the wing root, in
    /// ft.
    pub x_fs: Option<Fixed>,
    /// Sweep of the forward spar in rad.
    pub sweep_fs: Option<Fixed>,
    /// Sweep of the aft spar in rad.
    pub sweep_as: Option<Fixed>,
    /// Dihedral of the quarter-chord line in rad.
    pub dihedral: Option<Fixed>,
    /// Wing span in ft.
    pub wing_span: Option<Fixed>,
}

impl WingsStructure {
    /// The weight in lb for the design gross weight `w_dg` (`W`, in lb) and the
    /// ultimate load factor `n_z` (`Nz`):
    ///
    /// `0.0051 (W Nz)^0.557 S_w^0.649 AR^0.5 (1 + lambda)^0.1 S_csw^0.1 / (cos(sweep) (t/c)^0.4)`
    ///
    /// The power of the product `W Nz` is stated as the product of the powers.
    /// Fails with the first of its inputs that is absent.
    /// Else it is out of range where `1 + lambda` cannot be held.
    /// Else it is invalid geometry where `t_c_ratio_root` is not positive or
    /// `sweep` is not short of a quarter turn.
    pub open spec fn weight_law(&self, w_dg: Fixed, n_z: Fixed) -> Result<Seq<TermView>, Failure> {
        if self.s_w is None {
            absent(Part::WingsStructure, "s_w")
        } else if self.ar is None {
            absent(Part::WingsStructure, "ar")
        } else if self.lambda is None {
            absent(Part::WingsStructure, "lambda")
        } else if self.s_csw is None {
            absent(Part::WingsStructure, "s_csw")
        } else if self.t_c_ratio_root is None {
            absent(Part::WingsStructure, "t_c_ratio_root")
        } else if self.sweep is None {
            absent(Part::WingsStructure, "sweep")
        } else {
            let s_w = self.s_w.unwrap();
            let ar = self.ar.unwrap();
            let lambda = self.lambda.unwrap();
            let s_csw = self.s_csw.unwrap();
            let t_c_ratio_root = self.t_c_ratio_root.unwrap();
            let sweep = self.sweep.unwrap();
            if Fixed::sum(Fixed { raw: 1_000_000 }, lambda) is None {
                Err(Failure::OutOfRange { part: Part::WingsStructure })
            } else {
                let taper = Fixed::sum(Fixed { raw: 1_000_000 }, lambda).unwrap();
                if !(t_c_ratio_root.raw > 0 && acute(sweep)) {
                    Err(Failure::InvalidGeometry { part: Part::WingsStructure })
                } else {
                    Ok(
                        seq![
                            term(
                                5_100,
                                seq![
                                    power(w_dg, 557_000), power(n_z, 557_000),
                                    power(s_w, 649_000), power(ar, 500_000),
                                    power(taper, 100_000), power(s_csw, 100_000),
                                    cosine(sweep, -1_000_000), power(t_c_ratio_root, -400_000),
                                ],
                            ),
                        ],
                    )
                }
            }
        }
    }

    /// The formula of the weight, as [`Self::weight_law`] states it.
    #[allow(unused_variables)]
    pub fn weight_formula(&self, w_dg: Fixed, n_z: Fixed) -> (r: Result<Formula, Failure>)
        ensures
            law(r) == self.weight_law(w_dg, n_z),
    {
        let s_w = need(self.s_w, Part::WingsStructure, "s_w")?;
        let ar = need(self.ar, Part::WingsStructure, "ar")?;
        let lambda = need(self.lambda, Part::WingsStructure, "lambda")?;
        let s_csw = need(self.s_csw, Part::WingsStructure, "s_csw")?;
        let t_c_ratio_root = need(self.t_c_ratio_root, Part::WingsStructure, "t_c_ratio_root")?;
        let sweep = need(self.sweep, Part::WingsStructure, "sweep")?;
        let taper = match (Fixed { raw: 1_000_000 }).checked_add(lambda) {
            Some(v) => v,
            None => {
                return Err(Failure::OutOfRange { part: Part::WingsStructure });
            },
        };
        if !(t_c_ratio_root.raw > 0 && is_acute(sweep)) {
            return Err(Failure::InvalidGeometry { part: Part::WingsStructure });
        }
        let formula_factors = vec![
            Factor::power(w_dg, 557_000), Factor::power(n_z, 557_000),
            Factor::power(s_w, 649_000), Factor::power(ar, 500_000),
            Factor::power(taper, 100_000), Factor::power(s_csw, 100_000),
            Factor::cosine(sweep, -1_000_000), Factor::power(t_c_ratio_root, -400_000),
        ];
        assert(formula_factors@ =~= self.weight_law(w_dg, n_z)->Ok_0[0].factors);
        let formula = Formula::single(5_100, formula_factors);
        assert(formula@ =~~= self.weight_law(w_dg, n_z)->Ok_0);
        Ok(formula)
    }

    /// The centre of gravity in ft.
    ///
    /// The wing is taken to act at 35 % of the semi-span `b/2`, measured from the
    /// wing root: `z = 0.35 (b/2) tan(dihedral)`, and
    /// `x = x_fs + 0.35 (b/2) tan(sweep_fs) + 0.7 (delta_fs_as + 0.35 (b/2) (tan(sweep_as) - tan(sweep_fs)))`,
    /// which is 70 % of the way from the forward to the aft spar at that
    /// station. Both halves of the wing together act on the centreline,
    /// `y = 0`.
    /// Fails with the first of its inputs that is absent.
    /// Else it is invalid geometry where `wing_span` is not positive or
    /// `sweep_fs`, `sweep_as` or `dihedral` is not short of a quarter turn.
    pub open spec fn cg_law(&self) -> Result<Point<Seq<TermView>>, Failure> {
        if self.delta_fs_as is None {
            absent(Part::WingsStructure, "delta_fs_as")
        } else if self.x_fs is None {
            absent(Part::WingsStructure, "x_fs")
        } else if self.sweep_fs is None {
            absent(Part::WingsStructure, "sweep_fs")
        } else if self.sweep_as is None {
            absent(Part::WingsStructure, "sweep_as")
        } else if self.dihedral is None {
            absent(Part::WingsStructure, "dihedral")
        } else if self.wing_span is None {
            absent(Part::WingsStructure, "wing_span")
        } else {
            let delta_fs_as = self.delta_fs_as.unwrap();
            let x_fs = self.x_fs.unwrap();
            let sweep_fs = self.sweep_fs.unwrap();
            let sweep_as = self.sweep_as.unwrap();
            let dihedral = self.dihedral.unwrap();
            let wing_span = self.wing_span.unwrap();
            if !(wing_span.raw > 0 && acute(sweep_fs) && acute(sweep_as) && acute(dihedral)) {
                Err(Failure::InvalidGeometry { part: Part::WingsStructure })
            } else {
                Ok(
                    Point {
                        x: seq![
                            term(700_000, seq![times(delta_fs_as)]),
                            term(122_500, seq![times(wing_span), tangent(sweep_as)]),
                            term(52_500, seq![times(wing_span), tangent(sweep_fs)]),
                            term(1_000_000, seq![times(x_fs)]),
                        ],
                        y: constant(Fixed { raw: 0 }),
                        z: seq![
                            term(175_000, seq![times(wing_span), tangent(dihedral)]),
                        ],
                    },
                )
            }
        }
    }

    /// The formulas of the centre of gravity, as [`Self::cg_law`] states them.
    pub fn cg_formula(&self) -> (r: Result<Point<Formula>, Failure>)
        ensures
            place_law(r) == self.cg_law(),
    {
        let delta_fs_as = need(self.delta_fs_as, Part::WingsStructure, "delta_fs_as")?;
        let x_fs = need(self.x_fs, Part::WingsStructure, "x_fs")?;
        let sweep_fs = need(self.sweep_fs, Part::WingsStructure, "sweep_fs")?;
        let sweep_as = need(self.sweep_as, Part::WingsStructure, "sweep_as")?;
        let dihedral = need(self.dihedral, Part::WingsStructure, "dihedral")?;
        let wing_span = need(self.wing_span, Part::WingsStructure, "wing_span")?;
        if !(wing_span.raw > 0 && is_acute(sweep_fs) && is_acute(sweep_as) && is_acute(dihedral)) {
            return Err(Failure::InvalidGeometry { part: Part::WingsStructure });
        }
        let x_0 = Term::new(700_000, vec![Factor::times(delta_fs_as)]);
        assert(x_0@.factors =~= self.cg_law()->Ok_0.x[0].factors);
        let x_1 = Term::new(122_500, vec![Factor::times(wing_span), Factor::tangent(sweep_as)]);
        assert(x_1@.factors =~= self.cg_law()->Ok_0.x[1].factors);
        let x_2 = Term::new(52_500, vec![Factor::times(wing_span), Factor::tangent(sweep_fs)]);
        assert(x_2@.factors =~= self.cg_law()->Ok_0.x[2].factors);
        let x_3 = Term::new(1_000_000, vec![Factor::times(x_fs)]);
        assert(x_3@.factors =~= self.cg_law()->Ok_0.x[3].factors);
        let ghost x_terms = seq![x_0@, x_1@, x_2@, x_3@];
        let x = Formula::sum(vec![x_0, x_1, x_2, x_3]);
        assert(x@ =~= x_terms);
        assert(x@ =~~= self.cg_law()->Ok_0.x);
        let y = Formula::constant(Fixed { raw: 0 });
        let z_factors = vec![Factor::times(wing_span), Factor::tangent(dihedral)];
        assert(z_factors@ =~= self.cg_law()->Ok_0.z[0].factors);
        let z = Formula::single(175_000, z_factors);
        assert(z@ =~~= self.cg_law()->Ok_0.z);
        Ok(Point::new(x, y, z))
    }

    /// The part as a member of a group.
    pub open spec fn member_law(&self, w_dg: Fixed, n_z: Fixed) -> MemberView {
        MemberView {
            part: Part::WingsStructure,
            origin: at_origin(),
            weight: self.weight_law(w_dg, n_z),
            position: self.cg_law(),
        }
    }

    /// The part as a member of a group.
    pub fn member(&self, w_dg: Fixed, n_z: Fixed) -> (m: Member)
        ensures
            m@ == self.member_law(w_dg, n_z),
    {
        Member {
            part: Part::WingsStructure,
            origin: origin(),
            weight: self.weight_formula(w_dg, n_z),
            position: self.cg_formula(),
        }
    }
}

impl Component for WingsStructure {
    /// The part as `table` describes it: each field is the value under its
    /// symbol, or absent where the table has none.
    open spec fn from_table(table: Map<Seq<char>, Fixed>) -> WingsStructure {
        WingsStructure {
            s_w: lookup(table, "s_w"@),
            ar: lookup(table, "ar"@),
            lambda: lookup(table, "lambda"@),
            s_csw: lookup(table, "s_csw"@),
            t_c_ratio_root: lookup(table, "t_c_ratio_root"@),
            sweep: lookup(table, "sweep"@),
            delta_fs_as: lookup(table, "delta_fs_as"@),
            x_fs: lookup(table, "x_fs"@),
            sweep_fs: lookup(table, "sweep_fs"@),
            sweep_as: lookup(table, "sweep_as"@),
            dihedral: lookup(table, "dihedral"@),
            wing_span: lookup(table, "wing_span"@),
        }
    }

    /// Takes from `params` what the part needs. This never fails: a value
    /// that is absent is missed only when it is used.
    fn new(params: &Params) -> (r: Self) {
        Self {
            s_w: params.get("s_w"),
            ar: params.get("ar"),
            lambda: params.get("lambda"),
            s_csw: params.get("s_csw"),
            t_c_ratio_root: params.get("t_c_ratio_root"),
            sweep: params.get("sweep"),
            delta_fs_as: params.get("delta_fs_as"),
            x_fs: params.get("x_fs"),
            sweep_fs: params.get("sweep_fs"),
            sweep_as: params.get("sweep_as"),
            dihedral: params.get("dihedral"),
            wing_span: params.get("wing_span"),
        }
    }

    open spec fn weight_is(
        &self,
        answers: Answers,
        w_dg: Fixed,
        n_z: Fixed,
        r: Result<Weight, Failure>,
    ) -> bool {
        weighs(answers, Part::WingsStructure, self.weight_law(w_dg, n_z), r)
    }

    /// The weight of the part: the value that `eval` gives the formula of its
    /// weight, which must not be negative.
    fn weight<F: Fn(&Formula) -> Option<Fixed>>(
        &self,
        w_dg: Fixed,
        n_z: Fixed,
        eval: &F,
    ) -> (r: Result<Weight, Failure>)
    {
        weigh(Part::WingsStructure, &self.weight_formula(w_dg, n_z), eval)
    }

    proof fn lemma_weight_is_pure(
        &self,
        answers: Answers,
        w_dg: Fixed,
        n_z: Fixed,
        r1: Result<Weight, Failure>,
        r2: Result<Weight, Failure>,
    ) {
        lemma_weight_is_pure(answers, Part::WingsStructure, self.weight_law(w_dg, n_z), r1, r2);
    }

    open spec fn cg_is(
        &self,
        answers: Answers,
        w_dg: Fixed,
        n_z: Fixed,
        r: Result<Point<Fixed>, Failure>,
    ) -> bool {
        locates(answers, Part::WingsStructure, at_origin(), self.cg_law(), r)
    }

    /// The centre of gravity of the part: the values that `eval` gives the
    /// formulas of its position. The two numbers are not used.
    #[allow(unused_variables)]
    fn cg<F: Fn(&Formula) -> Option<Fixed>>(
        &self,
        w_dg: Fixed,
        n_z: Fixed,
        eval: &F,
    ) -> (r: Result<Point<Fixed>, Failure>)
    {
        locate(Part::WingsStructure, origin(), &self.cg_formula(), eval)
    }

    proof fn lemma_cg_is_pure(
        &self,
        answers: Answers,
        w_dg: Fixed,
        n_z: Fixed,
        r1: Result<Point<Fixed>, Failure>,
        r2: Result<Point<Fixed>, Failure>,
    ) {
        lemma_cg_is_pure(answers, Part::WingsStructure, at_origin(), self.cg_law(), r1, r2);
    }
}

/// The engine nacelles.
#[derive(Clone, Copy, Debug)]
pub struct Nacelle {
    /// 1.017 for a pylon-mounted nacelle, 1.0 otherwise.
    pub k_ng: Option<Fixed>,
    /// Nacelle length in ft.
    pub n_lt: Option<Fixed>,
    /// Nacelle width in ft.
    pub n_w: Option<Fixed>,
    /// Weight of engine and contents in lb.
    pub w_enc: Option<Fixed>,
    /// Number of engines.
    pub n_en: Option<Fixed>,
    /// Nacelle wetted area in ft^2.
    pub s_n: Option<Fixed>,
    /// Centre of gravity in ft.
    pub cg: Point<Option<Fixed>>,
}

impl Nacelle {
    /// The weight in lb for the design gross weight `w_dg` (`W`, in lb) and the
    /// ultimate load factor `n_z` (`Nz`):
    ///
    /// `0.6724 K_ng N_lt^0.1 N_w^0.294 Nz^0.119 W_enc^0.611 N_en^0.984 S_n^0.224`
    ///
    /// Fails with the first of its inputs that is absent.
    pub open spec fn weight_law(&self, w_dg: Fixed, n_z: Fixed) -> Result<Seq<TermView>, Failure> {
        if self.k_ng is None {
            absent(Part::Nacelle, "k_ng")
        } else if self.n_lt is None {
            absent(Part::Nacelle, "n_lt")
        } else if self.n_w is None {
            absent(Part::Nacelle, "n_w")
        } else if self.w_enc is None {
            absent(Part::Nacelle, "w_enc")
        } else if self.n_en is None {
            absent(Part::Nacelle, "n_en")
        } else if self.s_n is None {
            absent(Part::Nacelle, "s_n")
        } else {
            let k_ng = self.k_ng.unwrap();
            let n_lt = self.n_lt.unwrap();
            let n_w = self.n_w.unwrap();
            let w_enc = self.w_enc.unwrap();
            let n_en = self.n_en.unwrap();
            let s_n = self.s_n.unwrap();
            Ok(
                seq![
                    term(
                        672_400,
                        seq![
                            times(k_ng), power(n_lt, 100_000), power(n_w, 294_000),
                            power(n_z, 119_000), power(w_enc, 611_000), power(n_en, 984_000),
                            power(s_n, 224_000),
                        ],
                    ),
                ],
            )
        }
    }

    /// The formula of the weight, as [`Self::weight_law`] states it.
    #[allow(unused_variables)]
    pub fn weight_formula(&self, w_dg: Fixed, n_z: Fixed) -> (r: Result<Formula, Failure>)
        ensures
            law(r) == self.weight_law(w_dg, n_z),
    {
        let k_ng = need(self.k_ng, Part::Nacelle, "k_ng")?;
        let n_lt = need(self.n_lt, Part::Nacelle, "n_lt")?;
        let n_w = need(self.n_w, Part::Nacelle, "n_w")?;
        let w_enc = need(self.w_enc, Part::Nacelle, "w_enc")?;
        let n_en = need(self.n_en, Part::Nacelle, "n_en")?;
        let s_n = need(self.s_n, Part::Nacelle, "s_n")?;
        let formula_factors = vec![
            Factor::times(k_ng), Factor::power(n_lt, 100_000), Factor::power(n_w, 294_000),
            Factor::power(n_z, 119_000), Factor::power(w_enc, 611_000),
            Factor::power(n_en, 984_000), Factor::power(s_n, 224_000),
        ];
        assert(formula_factors@ =~= self.weight_law(w_dg, n_z)->Ok_0[0].factors);
        let formula = Formula::single(672_400, formula_factors);
        assert(formula@ =~~= self.weight_law(w_dg, n_z)->Ok_0);
        Ok(formula)
    }

    /// The centre of gravity in ft, as it was given. Fails with the first of
    /// its coordinates that is absent.
    pub open spec fn cg_law(&self) -> Result<Point<Seq<TermView>>, Failure> {
        if self.cg.x is None {
            absent(Part::Nacelle, "x_cg_nacelle")
        } else if self.cg.y is None {
            absent(Part::Nacelle, "y_cg_nacelle")
        } else if self.cg.z is None {
            absent(Part::Nacelle, "z_cg_nacelle")
        } else {
            let x_cg_nacelle = self.cg.x.unwrap();
            let y_cg_nacelle = self.cg.y.unwrap();
            let z_cg_nacelle = self.cg.z.unwrap();
            Ok(
                Point {
                    x: constant(x_cg_nacelle),
                    y: constant(y_cg_nacelle),
                    z: constant(z_cg_nacelle),
                },
            )
        }
    }

    /// The formulas of the centre of gravity, as [`Self::cg_law`] states them.
    pub fn cg_formula(&self) -> (r: Result<Point<Formula>, Failure>)
        ensures
            place_law(r) == self.cg_law(),
    {
        let x_cg_nacelle = need(self.cg.x, Part::Nacelle, "x_cg_nacelle")?;
        let y_cg_nacelle = need(self.cg.y, Part::Nacelle, "y_cg_nacelle")?;
        let z_cg_nacelle = need(self.cg.z, Part::Nacelle, "z_cg_nacelle")?;
        Ok(
            Point::new(
                Formula::constant(x_cg_nacelle),
                Formula::constant(y_cg_nacelle),
                Formula::constant(z_cg_nacelle),
            ),
        )
    }

    /// The part as a member of a group.
    pub open spec fn member_law(&self, w_dg: Fixed, n_z: Fixed) -> MemberView {
        MemberView {
            part: Part::Nacelle,
            origin: at_origin(),
            weight: self.weight_law(w_dg, n_z),
            position: self.cg_law(),
        }
    }

    /// The part as a member of a group.
    pub fn member(&self, w_dg: Fixed, n_z: Fixed) -> (m: Member)
        ensures
            m@ == self.member_law(w_dg, n_z),
    {
        Member {
            part: Part::Nacelle,
            origin: origin(),
            weight: self.weight_formula(w_dg, n_z),
            position: self.cg_formula(),
        }
    }
}

impl Component for Nacelle {
    /// The part as `table` describes it: each field is the value under its
    /// symbol, or absent where the table has none.
    open spec fn from_table(table: Map<Seq<char>, Fixed>) -> Nacelle {
        Nacelle {
            k_ng: lookup(table, "k_ng"@),
            n_lt: lookup(table, "n_lt"@),
            n_w: lookup(table, "n_w"@),
            w_enc: lookup(table, "w_enc"@),
            n_en: lookup(table, "n_en"@),
            s_n: lookup(table, "s_n"@),
            cg: Point {
                x: lookup(table, "x_cg_nacelle"@),
                y: lookup(table, "y_cg_nacelle"@),
                z: lookup(table, "z_cg_nacelle"@),
            },
        }
    }

    /// Takes from `params` what the part needs. This never fails: a value
    /// that is absent is missed only when it is used.
    fn new(params: &Params) -> (r: Self) {
        Self {
            k_ng: params.get("k_ng"),
            n_lt: params.get("n_lt"),
            n_w: params.get("n_w"),
            w_enc: params.get("w_enc"),
            n_en: params.get("n_en"),
            s_n: params.get("s_n"),
            cg: Point::new(
                params.get("x_cg_nacelle"),
                params.get("y_cg_nacelle"),
                params.get("z_cg_nacelle"),
            ),
        }
    }

    open spec fn weight_is(
        &self,
        answers: Answers,
        w_dg: Fixed,
        n_z: Fixed,
        r: Result<Weight, Failure>,
    ) -> bool {
        weighs(answers, Part::Nacelle, self.weight_law(w_dg, n_z), r)
    }

    /// The weight of the part: the value that `eval` gives the formula of its
    /// weight, which must not be negative.
    fn weight<F: Fn(&Formula) -> Option<Fixed>>(
        &self,
        w_dg: Fixed,
        n_z: Fixed,
        eval: &F,
    ) -> (r: Result<Weight, Failure>)
    {
        weigh(Part::Nacelle, &self.weight_formula(w_dg, n_z), eval)
    }

    proof fn lemma_weight_is_pure(
        &self,
        answers: Answers,
        w_dg: Fixed,
        n_z: Fixed,
        r1: Result<Weight, Failure>,
        r2: Result<Weight, Failure>,
    ) {
        lemma_weight_is_pure(answers, Part::Nacelle, self.weight_law(w_dg, n_z), r1, r2);
    }

    open spec fn cg_is(
        &self,
        answers: Answers,
        w_dg: Fixed,
        n_z: Fixed,
        r: Result<Point<Fixed>, Failure>,
    ) -> bool {
        locates(answers, Part::Nacelle, at_origin(), self.cg_law(), r)
    }

    /// The centre of gravity of the part, as it was given. Neither the two
    /// numbers nor the evaluator are used.
    #[allow(unused_variables)]
    fn cg<F: Fn(&Formula) -> Option<Fixed>>(
        &self,
        w_dg: Fixed,
        n_z: Fixed,
        eval: &F,
    ) -> (r: Result<Point<Fixed>, Failure>)
        ensures
            self.cg_law() is Ok ==> r == Ok::<Point<Fixed>, Failure>(
                Point { x: self.cg.x.unwrap(), y: self.cg.y.unwrap(), z: self.cg.z.unwrap() },
            ),
    {
        let r = locate(Part::Nacelle, origin(), &self.cg_formula(), eval);
        proof {
            if self.cg_law() is Ok {
                let p = self.cg_law()->Ok_0;
                lemma_constant(self.cg.x.unwrap());
                lemma_constant(self.cg.y.unwrap());
                lemma_constant(self.cg.z.unwrap());
                lemma_polynomial_position(*eval, Part::Nacelle, at_origin(), p, r);
            }
        }
        r
    }

    proof fn lemma_cg_is_pure(
        &self,
        answers: Answers,
        w_dg: Fixed,
        n_z: Fixed,
        r1: Result<Point<Fixed>, Failure>,
        r2: Result<Point<Fixed>, Failure>,
    ) {
        lemma_cg_is_pure(answers, Part::Nacelle, at_origin(), self.cg_law(), r1, r2);
    }
}

/// The engine controls.
#[derive(Clone, Copy, Debug)]
pub struct EngineControls {
    /// Routing distance of the engine controls from engine to cockpit in ft; the
    /// total over all engines.
    pub l_ec: Option<Fixed>,
    /// Number of engines.
    pub n_en: Option<Fixed>,
    /// Centre of gravity in ft.
    pub cg: Point<Option<Fixed>>,
}

impl EngineControls {
    /// The weight in lb for the design gross weight `w_dg` (`W`, in lb) and the
    /// ultimate load factor `n_z` (`Nz`):
    ///
    /// `5 N_en + 0.8 L_ec`
    ///
    /// Fails with the first of its inputs that is absent.
    pub open spec fn weight_law(&self, w_dg: Fixed, n_z: Fixed) -> Result<Seq<TermView>, Failure> {
        if self.l_ec is None {
            absent(Part::EngineControls, "l_ec")
        } else if self.n_en is None {
            absent(Part::EngineControls, "n_en")
        } else {
            let l_ec = self.l_ec.unwrap();
            let n_en = self.n_en.unwrap();
            Ok(
                seq![
                    term(5_000_000, seq![times(n_en)]),
                    term(800_000, seq![times(l_ec)]),
                ],
            )
        }
    }

    /// The formula of the weight, as [`Self::weight_law`] states it.
    #[allow(unused_variables)]
    pub fn weight_formula(&self, w_dg: Fixed, n_z: Fixed) -> (r: Result<Formula, Failure>)
        ensures
            law(r) == self.weight_law(w_dg, n_z),
    {
        let l_ec = need(self.l_ec, Part::EngineControls, "l_ec")?;
        let n_en = need(self.n_en, Part::EngineControls, "n_en")?;
        let formula_0 = Term::new(5_000_000, vec![Factor::times(n_en)]);
        assert(formula_0@.factors =~= self.weight_law(w_dg, n_z)->Ok_0[0].factors);
        let formula_1 = Term::new(800_000, vec![Factor::times(l_ec)]);
        assert(formula_1@.factors =~= self.weight_law(w_dg, n_z)->Ok_0[1].factors);
        let ghost formula_terms = seq![formula_0@, formula_1@];
        let formula = Formula::sum(vec![formula_0, formula_1]);
        assert(formula@ =~= formula_terms);
        assert(formula@ =~~= self.weight_law(w_dg, n_z)->Ok_0);
        Ok(formula)
    }

    /// The centre of gravity in ft, as it was given. Fails with the first of
    /// its coordinates that is absent.
    pub open spec fn cg_law(&self) -> Result<Point<Seq<TermView>>, Failure> {
        if self.cg.x is None {
            absent(Part::EngineControls, "x_cg_engine_controls")
        } else if self.cg.y is None {
            absent(Part::EngineControls, "y_cg_engine_controls")
        } else if self.cg.z is None {
            absent(Part::EngineControls, "z_cg_engine_controls")
        } else {
            let x_cg_engine_controls = self.cg.x.unwrap();
            let y_cg_engine_controls = self.cg.y.unwrap();
            let z_cg_engine_controls = self.cg.z.unwrap();
            Ok(
                Point {
                    x: constant(x_cg_engine_controls),
                    y: constant(y_cg_engine_controls),
                    z: constant(z_cg_engine_controls),
                },
            )
        }
    }

    /// The formulas of the centre of gravity, as [`Self::cg_law`] states them.
    pub fn cg_formula(&self) -> (r: Result<Point<Formula>, Failure>)
        ensures
            place_law(r) == self.cg_law(),
    {
        let x_cg_engine_controls = need(self.cg.x, Part::EngineControls, "x_cg_engine_controls")?;
        let y_cg_engine_controls = need(self.cg.y, Part::EngineControls, "y_cg_engine_controls")?;
        let z_cg_engine_controls = need(self.cg.z, Part::EngineControls, "z_cg_engine_controls")?;
        Ok(
            Point::new(
                Formula::constant(x_cg_engine_controls),
                Formula::constant(y_cg_engine_controls),
                Formula::constant(z_cg_engine_controls),
            ),
        )
    }

    /// The part as a member of a group.
    pub open spec fn member_law(&self, w_dg: Fixed, n_z: Fixed) -> MemberView {
        MemberView {
            part: Part::EngineControls,
            origin: at_origin(),
            weight: self.weight_law(w_dg, n_z),
            position: self.cg_law(),
        }
    }

    /// The part as a member of a group.
    pub fn member(&self, w_dg: Fixed, n_z: Fixed) -> (m: Member)
        ensures
            m@ == self.member_law(w_dg, n_z),
    {
        Member {
            part: Part::EngineControls,
            origin: origin(),
            weight: self.weight_formula(w_dg, n_z),
            position: self.cg_formula(),
        }
    }
}

impl Component for EngineControls {
    /// The part as `table` describes it: each field is the value under its
    /// symbol, or absent where the table has none.
    open spec fn from_table(table: Map<Seq<char>, Fixed>) -> EngineControls {
        EngineControls {
            l_ec: lookup(table, "l_ec"@),
            n_en: lookup(table, "n_en"@),
            cg: Point {
                x: lookup(table, "x_cg_engine_controls"@),
                y: lookup(table, "y_cg_engine_controls"@),
                z: lookup(table, "z_cg_engine_controls"@),
            },
        }
    }

    /// Takes from `params` what the part needs. This never fails: a value
    /// that is absent is missed only when it is used.
    fn new(params: &Params) -> (r: Self) {
        Self {
            l_ec: params.get("l_ec"),
            n_en: params.get("n_en"),
            cg: Point::new(
                params.get("x_cg_engine_controls"),
                params.get("y_cg_engine_controls"),
                params.get("z_cg_engine_controls"),
            ),
        }
    }

    open spec fn weight_is(
        &self,
        answers: Answers,
        w_dg: Fixed,
        n_z: Fixed,
        r: Result<Weight, Failure>,
    ) -> bool {
        weighs(answers, Part::EngineControls, self.weight_law(w_dg, n_z), r)
    }

    /// The weight of the part: the value of its formula, a polynomial, which
    /// must not be negative. The evaluator is not asked.
    fn weight<F: Fn(&Formula) -> Option<Fixed>>(
        &self,
        w_dg: Fixed,
        n_z: Fixed,
        eval: &F,
    ) -> (r: Result<Weight, Failure>)
        ensures
            self.weight_law(w_dg, n_z) matches Ok(terms) ==> r == settled_weight(
                Part::EngineControls,
                polynomial_value(terms),
            ),
    {
        let r = weigh(Part::EngineControls, &self.weight_formula(w_dg, n_z), eval);
        proof {
            if self.weight_law(w_dg, n_z) is Ok {
                let terms = self.weight_law(w_dg, n_z)->Ok_0;
                assert(polynomial(terms));
                lemma_polynomial_weight(*eval, Part::EngineControls, terms, r);
            }
        }
        r
    }

    proof fn lemma_weight_is_pure(
        &self,
        answers: Answers,
        w_dg: Fixed,
        n_z: Fixed,
        r1: Result<Weight, Failure>,
        r2: Result<Weight, Failure>,
    ) {
        lemma_weight_is_pure(answers, Part::EngineControls, self.weight_law(w_dg, n_z), r1, r2);
    }

    open spec fn cg_is(
        &self,
        answers: Answers,
        w_dg: Fixed,
        n_z: Fixed,
        r: Result<Point<Fixed>, Failure>,
    ) -> bool {
        locates(answers, Part::EngineControls, at_origin(), self.cg_law(), r)
    }

    /// The centre of gravity of the part, as it was given. Neither the two
    /// numbers nor the evaluator are used.
    #[allow(unused_variables)]
    fn cg<F: Fn(&Formula) -> Option<Fixed>>(
        &self,
        w_dg: Fixed,
        n_z: Fixed,
        eval: &F,
    ) -> (r: Result<Point<Fixed>, Failure>)
        ensures
            self.cg_law() is Ok ==> r == Ok::<Point<Fixed>, Failure>(
                Point { x: self.cg.x.unwrap(), y: self.cg.y.unwrap(), z: self.cg.z.unwrap() },
            ),
    {
        let r = locate(Part::EngineControls, origin(), &self.cg_formula(), eval);
        proof {
            if self.cg_law() is Ok {
                let p = self.cg_law()->Ok_0;
                lemma_constant(self.cg.x.unwrap());
                lemma_constant(self.cg.y.unwrap());
                lemma_constant(self.cg.z.unwrap());
                lemma_polynomial_position(*eval, Part::EngineControls, at_origin(), p, r);
            }
        }
        r
    }

    proof fn lemma_cg_is_pure(
        &self,
        answers: Answers,
        w_dg: Fixed,
        n_z: Fixed,
        r1: Result<Point<Fixed>, Failure>,
        r2: Result<Point<Fixed>, Failure>,
    ) {
        lemma_cg_is_pure(answers, Part::EngineControls, at_origin(), self.cg_law(), r1, r2);
    }
}

/// The fuel system.
#[derive(Clone, Copy, Debug)]
pub struct FuelSystem {
    /// Total volume of the fuel tanks in gal.
    pub v_t: Option<Fixed>,
    /// Number of fuel tanks.
    pub n_t: Option<Fixed>,
    /// Volume of the self-sealing tanks in gal.
    pub v_p: Option<Fixed>,
    /// Volume of the integral tanks in gal.
    pub v_i: Option<Fixed>,
    /// Centre of gravity in ft.
    pub cg: Point<Option<Fixed>>,
}

impl FuelSystem {
    /// The weight in lb for the design gross weight `w_dg` (`W`, in lb) and the
    /// ultimate load factor `n_z` (`Nz`):
    ///
    /// `2.405 V_t^0.606 N_t^0.5 (1 + V_p/V_t) / (1 + V_i/V_t)`
    ///
    /// The quotient of the two brackets is stated as `(V_t + V_p) / (V_t + V_i)`.
    /// Fails with the first of its inputs that is absent.
    /// Else it is out of range where `v_t + v_p` or `v_t + v_i` cannot be held.
    /// Else it is invalid geometry where `v_t` or `v_t + v_i` is not positive.
    pub open spec fn weight_law(&self, w_dg: Fixed, n_z: Fixed) -> Result<Seq<TermView>, Failure> {
        if self.v_t is None {
            absent(Part::FuelSystem, "v_t")
        } else if self.n_t is None {
            absent(Part::FuelSystem, "n_t")
        } else if self.v_p is None {
            absent(Part::FuelSystem, "v_p")
        } else if self.v_i is None {
            absent(Part::FuelSystem, "v_i")
        } else {
            let v_t = self.v_t.unwrap();
            let n_t = self.n_t.unwrap();
            let v_p = self.v_p.unwrap();
            let v_i = self.v_i.unwrap();
            if Fixed::sum(v_t, v_p) is None || Fixed::sum(v_t, v_i) is None {
                Err(Failure::OutOfRange { part: Part::FuelSystem })
            } else {
                let with_sealed = Fixed::sum(v_t, v_p).unwrap();
                let with_integral = Fixed::sum(v_t, v_i).unwrap();
                if !(v_t.raw > 0 && with_integral.raw > 0) {
                    Err(Failure::InvalidGeometry { part: Part::FuelSystem })
                } else {
                    Ok(
                        seq![
                            term(
                                2_405_000,
                                seq![
                                    power(v_t, 606_000), power(n_t, 500_000),
                                    times(with_sealed), power(with_integral, -1_000_000),
                                ],
                            ),
                        ],
                    )
                }
            }
        }
    }

    /// The formula of the weight, as [`Self::weight_law`] states it.
    #[allow(unused_variables)]
    pub fn weight_formula(&self, w_dg: Fixed, n_z: Fixed) -> (r: Result<Formula, Failure>)
        ensures
            law(r) == self.weight_law(w_dg, n_z),
    {
        let v_t = need(self.v_t, Part::FuelSystem, "v_t")?;
        let n_t = need(self.n_t, Part::FuelSystem, "n_t")?;
        let v_p = need(self.v_p, Part::FuelSystem, "v_p")?;
        let v_i = need(self.v_i, Part::FuelSystem, "v_i")?;
        let with_sealed = match v_t.checked_add(v_p) {
            Some(v) => v,
            None => {
                return Err(Failure::OutOfRange { part: Part::FuelSystem });
            },
        };
        let with_integral = match v_t.checked_add(v_i) {
            Some(v) => v,
            None => {
                return Err(Failure::OutOfRange { part: Part::FuelSystem });
            },
        };
        if !(v_t.raw > 0 && with_integral.raw > 0) {
            return Err(Failure::InvalidGeometry { part: Part::FuelSystem });
        }
        let formula_factors = vec![
            Factor::power(v_t, 606_000), Factor::power(n_t, 500_000),
            Factor::times(with_sealed), Factor::power(with_integral, -1_000_000),
        ];
        assert(formula_factors@ =~= self.weight_law(w_dg, n_z)->Ok_0[0].factors);
        let formula = Formula::single(2_405_000, formula_factors);
        assert(formula@ =~~= self.weight_law(w_dg, n_z)->Ok_0);
        Ok(formula)
    }

    /// The centre of gravity in ft, as it was given. Fails with the first of
    /// its coordinates that is absent.
    pub open spec fn cg_law(&self) -> Result<Point<Seq<TermView>>, Failure> {
        if self.cg.x is None {
            absent(Part::FuelSystem, "x_cg_fuel_system")
        } else if self.cg.y is None {
            absent(Part::FuelSystem, "y_cg_fuel_system")
        } else if self.cg.z is None {
            absent(Part::FuelSystem, "z_cg_fuel_system")
        } else {
            let x_cg_fuel_system = self.cg.x.unwrap();
            let y_cg_fuel_system = self.cg.y.unwrap();
            let z_cg_fuel_system = self.cg.z.unwrap();
            Ok(
                Point {
                    x: constant(x_cg_fuel_system),
                    y: constant(y_cg_fuel_system),
                    z: constant(z_cg_fuel_system),
                },
            )
        }
    }

    /// The formulas of the centre of gravity, as [`Self::cg_law`] states them.
    pub fn cg_formula(&self) -> (r: Result<Point<Formula>, Failure>)
        ensures
            place_law(r) == self.cg_law(),
    {
        let x_cg_fuel_system = need(self.cg.x, Part::FuelSystem, "x_cg_fuel_system")?;
        let y_cg_fuel_system = need(self.cg.y, Part::FuelSystem, "y_cg_fuel_system")?;
        let z_cg_fuel_system = need(self.cg.z, Part::FuelSystem, "z_cg_fuel_system")?;
        Ok(
            Point::new(
                Formula::constant(x_cg_fuel_system),
                Formula::constant(y_cg_fuel_system),
                Formula::constant(z_cg_fuel_system),
            ),
        )
    }

    /// The part as a member of a group.
    pub open spec fn member_law(&self, w_dg: Fixed, n_z: Fixed) -> MemberView {
        MemberView {
            part: Part::FuelSystem,
            origin: at_origin(),
            weight: self.weight_law(w_dg, n_z),
            position: self.cg_law(),
        }
    }

    /// The part as a member of a group.
    pub fn member(&self, w_dg: Fixed, n_z: Fixed) -> (m: Member)
        ensures
            m@ == self.member_law(w_dg, n_z),
    {
        Member {
            part: Part::FuelSystem,
            origin: origin(),
            weight: self.weight_formula(w_dg, n_z),
            position: self.cg_formula(),
        }
    }
}

impl Component for FuelSystem {
    /// The part as `table` describes it: each field is the value under its
    /// symbol, or absent where the table has none.
    open spec fn from_table(table: Map<Seq<char>, Fixed>) -> FuelSystem {
        FuelSystem {
            v_t: lookup(table, "v_t"@),
            n_t: lookup(table, "n_t"@),
            v_p: lookup(table, "v_p"@),
            v_i: lookup(table, "v_i"@),
            cg: Point {
                x: lookup(table, "x_cg_fuel_system"@),
                y: lookup(table, "y_cg_fuel_system"@),
                z: lookup(table, "z_cg_fuel_system"@),
            },
        }
    }

    /// Takes from `params` what the part needs. This never fails: a value
    /// that is absent is missed only when it is used.
    fn new(params: &Params) -> (r: Self) {
        Self {
            v_t: params.get("v_t"),
            n_t: params.get("n_t"),
            v_p: params.get("v_p"),
            v_i: params.get("v_i"),
            cg: Point::new(
                params.get("x_cg_fuel_system"),
                params.get("y_cg_fuel_system"),
                params.get("z_cg_fuel_system"),
            ),
        }
    }

    open spec fn weight_is(
        &self,
        answers: Answers,
        w_dg: Fixed,
        n_z: Fixed,
        r: Result<Weight, Failure>,
    ) -> bool {
        weighs(answers, Part::FuelSystem, self.weight_law(w_dg, n_z), r)
    }

    /// The weight of the part: the value that `eval` gives the formula of its
    /// weight, which must not be negative.
    fn weight<F: Fn(&Formula) -> Option<Fixed>>(
        &self,
        w_dg: Fixed,
        n_z: Fixed,
        eval: &F,
    ) -> (r: Result<Weight, Failure>)
    {
        weigh(Part::FuelSystem, &self.weight_formula(w_dg, n_z), eval)
    }

    proof fn lemma_weight_is_pure(
        &self,
        answers: Answers,
        w_dg: Fixed,
        n_z: Fixed,
        r1: Result<Weight, Failure>,
        r2: Result<Weight, Failure>,
    ) {
        lemma_weight_is_pure(answers, Part::FuelSystem, self.weight_law(w_dg, n_z), r1, r2);
    }

    open spec fn cg_is(
        &self,
        answers: Answers,
        w_dg: Fixed,
        n_z: Fixed,
        r: Result<Point<Fixed>, Failure>,
    ) -> bool {
        locates(answers, Part::FuelSystem, at_origin(), self.cg_law(), r)
    }

    /// The centre of gravity of the part, as it was given. Neither the two
    /// numbers nor the evaluator are used.
    #[allow(unused_variables)]
    fn cg<F: Fn(&Formula) -> Option<Fixed>>(
        &self,
        w_dg: Fixed,
        n_z: Fixed,
        eval: &F,
    ) -> (r: Result<Point<Fixed>, Failure>)
        ensures
            self.cg_law() is Ok ==> r == Ok::<Point<Fixed>, Failure>(
                Point { x: self.cg.x.unwrap(), y: self.cg.y.unwrap(), z: self.cg.z.unwrap() },
            ),
    {
        let r = locate(Part::FuelSystem, origin(), &self.cg_formula(), eval);
        proof {
            if self.cg_law() is Ok {
                let p = self.cg_law()->Ok_0;
                lemma_constant(self.cg.x.unwrap());
                lemma_constant(self.cg.y.unwrap());
                lemma_constant(self.cg.z.unwrap());
                lemma_polynomial_position(*eval, Part::FuelSystem, at_origin(), p, r);
            }
        }
        r
    }

    proof fn lemma_cg_is_pure(
        &self,
        answers: Answers,
        w_dg: Fixed,
        n_z: Fixed,
        r1: Result<Point<Fixed>, Failure>,
        r2: Result<Point<Fixed>, Failure>,
    ) {
        lemma_cg_is_pure(answers, Part::FuelSystem, at_origin(), self.cg_law(), r1, r2);
    }
}

/// The pneumatic engine starter.
#[derive(Clone, Copy, Debug)]
pub struct EnginePneumaticStarter {
    /// Number of engines.
    pub n_en: Option<Fixed>,
    /// Weight of one engine in lb.
    pub w_en: Option<Fixed>,
    /// Centre of gravity in ft.
    pub cg: Point<Option<Fixed>>,
}

impl EnginePneumaticStarter {
    /// The weight in lb for the design gross weight `w_dg` (`W`, in lb) and the
    /// ultimate load factor `n_z` (`Nz`):
    ///
    /// `49.19 (N_en W_en / 1000)^0.541`
    ///
    /// The power of a product with a constant is stated as the product of the
    /// powers.
    /// Fails with the first of its inputs that is absent.
    pub open spec fn weight_law(&self, w_dg: Fixed, n_z: Fixed) -> Result<Seq<TermView>, Failure> {
        if self.n_en is None {
            absent(Part::EnginePneumaticStarter, "n_en")
        } else if self.w_en is None {
            absent(Part::EnginePneumaticStarter, "w_en")
        } else {
            let n_en = self.n_en.unwrap();
            let w_en = self.w_en.unwrap();
            Ok(
                seq![
                    term(
                        49_190_000,
                        seq![
                            power(n_en, 541_000), power(w_en, 541_000),
                            power(Fixed { raw: 1_000 }, 541_000),
                        ],
                    ),
                ],
            )
        }
    }

    /// The formula of the weight, as [`Self::weight_law`] states it.
    #[allow(unused_variables)]
    pub fn weight_formula(&self, w_dg: Fixed, n_z: Fixed) -> (r: Result<Formula, Failure>)
        ensures
            law(r) == self.weight_law(w_dg, n_z),
    {
        let n_en = need(self.n_en, Part::EnginePneumaticStarter, "n_en")?;
        let w_en = need(self.w_en, Part::EnginePneumaticStarter, "w_en")?;
        let formula_factors = vec![
            Factor::power(n_en, 541_000), Factor::power(w_en, 541_000),
            Factor::power(Fixed { raw: 1_000 }, 541_000),
        ];
        assert(formula_factors@ =~= self.weight_law(w_dg, n_z)->Ok_0[0].factors);
        let formula = Formula::single(49_190_000, formula_factors);
        assert(formula@ =~~= self.weight_law(w_dg, n_z)->Ok_0);
        Ok(formula)
    }

    /// The centre of gravity in ft, as it was given. Fails with the first of
    /// its coordinates that is absent.
    pub open spec fn cg_law(&self) -> Result<Point<Seq<TermView>>, Failure> {
        if self.cg.x is None {
            absent(Part::EnginePneumaticStarter, "x_cg_engine_pneumatic_starter")
        } else if self.cg.y is None {
            absent(Part::EnginePneumaticStarter, "y_cg_engine_pneumatic_starter")
        } else if self.cg.z is None {
            absent(Part::EnginePneumaticStarter, "z_cg_engine_pneumatic_starter")
        } else {
            let x_cg_engine_pneumatic_starter = self.cg.x.unwrap();
            let y_cg_engine_pneumatic_starter = self.cg.y.unwrap();
            let z_cg_engine_pneumatic_starter = self.cg.z.unwrap();
            Ok(
                Point {
                    x: constant(x_cg_engine_pneumatic_starter),
                    y: constant(y_cg_engine_pneumatic_starter),
                    z: constant(z_cg_engine_pneumatic_starter),
                },
            )
        }
    }

    /// The formulas of the centre of gravity, as [`Self::cg_law`] states them.
    pub fn cg_formula(&self) -> (r: Result<Point<Formula>, Failure>)
        ensures
            place_law(r) == self.cg_law(),
    {
        let x_cg_engine_pneumatic_starter = need(self.cg.x, Part::EnginePneumaticStarter, "x_cg_engine_pneumatic_starter")?;
        let y_cg_engine_pneumatic_starter = need(self.cg.y, Part::EnginePneumaticStarter, "y_cg_engine_pneumatic_starter")?;
        let z_cg_engine_pneumatic_starter = need(self.cg.z, Part::EnginePneumaticStarter, "z_cg_engine_pneumatic_starter")?;
        Ok(
            Point::new(
                Formula::constant(x_cg_engine_pneumatic_starter),
                Formula::constant(y_cg_engine_pneumatic_starter),
                Formula::constant(z_cg_engine_pneumatic_starter),
            ),
        )
    }

    /// The part as a member of a group.
    pub open spec fn member_law(&self, w_dg: Fixed, n_z: Fixed) -> MemberView {
        MemberView {
            part: Part::EnginePneumaticStarter,
            origin: at_origin(),
            weight: self.weight_law(w_dg, n_z),
            position: self.cg_law(),
        }
    }

    /// The part as a member of a group.
    pub fn member(&self, w_dg: Fixed, n_z: Fixed) -> (m: Member)
        ensures
            m@ == self.member_law(w_dg, n_z),
    {
        Member {
            part: Part::EnginePneumaticStarter,
            origin: origin(),
            weight: self.weight_formula(w_dg, n_z),
            position: self.cg_formula(),
        }
    }
}

impl Component for EnginePneumaticStarter {
    /// The part as `table` describes it: each field is the value under its
    /// symbol, or absent where the table has none.
    open spec fn from_table(table: Map<Seq<char>, Fixed>) -> EnginePneumaticStarter {
        EnginePneumaticStarter {
            n_en: lookup(table, "n_en"@),
            w_en: lookup(table, "w_en"@),
            cg: Point {
                x: lookup(table, "x_cg_engine_pneumatic_starter"@),
                y: lookup(table, "y_cg_engine_pneumatic_starter"@),
                z: lookup(table, "z_cg_engine_pneumatic_starter"@),
            },
        }
    }

    /// Takes from `params` what the part needs. This never fails: a value
    /// that is absent is missed only when it is used.
    fn new(params: &Params) -> (r: Self) {
        Self {
            n_en: params.get("n_en"),
            w_en: params.get("w_en"),
            cg: Point::new(
                params.get("x_cg_engine_pneumatic_starter"),
                params.get("y_cg_engine_pneumatic_starter"),
                params.get("z_cg_engine_pneumatic_starter"),
            ),
        }
    }

    open spec fn weight_is(
        &self,
        answers: Answers,
        w_dg: Fixed,
        n_z: Fixed,
        r: Result<Weight, Failure>,
    ) -> bool {
        weighs(answers, Part::EnginePneumaticStarter, self.weight_law(w_dg, n_z), r)
    }

    /// The weight of the part: the value that `eval` gives the formula of its
    /// weight, which must not be negative.
    fn weight<F: Fn(&Formula) -> Option<Fixed>>(
        &self,
        w_dg: Fixed,
        n_z: Fixed,
        eval: &F,
    ) -> (r: Result<Weight, Failure>)
    {
        weigh(Part::EnginePneumaticStarter, &self.weight_formula(w_dg, n_z), eval)
    }

    proof fn lemma_weight_is_pure(
        &self,
        answers: Answers,
        w_dg: Fixed,
        n_z: Fixed,
        r1: Result<Weight, Failure>,
        r2: Result<Weight, Failure>,
    ) {
        lemma_weight_is_pure(answers, Part::EnginePneumaticStarter, self.weight_law(w_dg, n_z), r1, r2);
    }

    open spec fn cg_is(
        &self,
        answers: Answers,
        w_dg: Fixed,
        n_z: Fixed,
        r: Result<Point<Fixed>, Failure>,
    ) -> bool {
        locates(answers, Part::EnginePneumaticStarter, at_origin(), self.cg_law(), r)
    }

    /// The centre of gravity of the part, as it was given. Neither the two
    /// numbers nor the evaluator are used.
    #[allow(unused_variables)]
    fn cg<F: Fn(&Formula) -> Option<Fixed>>(
        &self,
        w_dg: Fixed,
        n_z: Fixed,
        eval: &F,
    ) -> (r: Result<Point<Fixed>, Failure>)
        ensures
            self.cg_law() is Ok ==> r == Ok::<Point<Fixed>, Failure>(
                Point { x: self.cg.x.unwrap(), y: self.cg.y.unwrap(), z: self.cg.z.unwrap() },
            ),
    {
        let r = locate(Part::EnginePneumaticStarter, origin(), &self.cg_formula(), eval);
        proof {
            if self.cg_law() is Ok {
                let p = self.cg_law()->Ok_0;
                lemma_constant(self.cg.x.unwrap());
                lemma_constant(self.cg.y.unwrap());
                lemma_constant(self.cg.z.unwrap());
                lemma_polynomial_position(*eval, Part::EnginePneumaticStarter, at_origin(), p, r);
            }
        }
        r
    }

    proof fn lemma_cg_is_pure(
        &self,
        answers: Answers,
        w_dg: Fixed,
        n_z: Fixed,
        r1: Result<Point<Fixed>, Failure>,
        r2: Result<Point<Fixed>, Failure>,
    ) {
        lemma_cg_is_pure(answers, Part::EnginePneumaticStarter, at_origin(), self.cg_law(), r1, r2);
    }
}

} // verus!
