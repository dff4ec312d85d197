//! The tail group.
use vstd::prelude::*;
use crate::components::Component;
use crate::components::balance::Balance;
use crate::components::evaluation::Answers;
use crate::components::evaluation::accepts_all;
use crate::components::evaluation::answers_of;
use crate::components::evaluation::locate;
use crate::components::evaluation::locates;
use crate::components::evaluation::weigh;
use crate::components::evaluation::weighs;
use crate::components::formula::Factor;
use crate::components::formula::Formula;
use crate::components::formula::Term;
use crate::components::formula::TermView;
use crate::components::formula::constant;
use crate::components::formula::cosine;
use crate::components::formula::power;
use crate::components::formula::tangent;
use crate::components::formula::term;
use crate::components::formula::times;
use crate::components::group::group_balance;
use crate::components::group::group_balances;
use crate::components::group::group_centres;
use crate::components::group::group_cg;
use crate::components::group::group_moment;
use crate::components::group::group_moments;
use crate::components::group::group_weighs;
use crate::components::group::group_weight;
use crate::components::group::totals;
use crate::components::laws::lemma_cg_is_pure;
use crate::components::laws::lemma_group_cg_is_pure;
use crate::components::laws::lemma_group_weight_is_pure;
use crate::components::laws::lemma_weight_is_pure;
use crate::components::member::Member;
use crate::components::member::MemberView;
use crate::components::member::absent;
use crate::components::member::acute;
use crate::components::member::at_origin;
use crate::components::member::is_acute;
use crate::components::member::law;
use crate::components::member::member_views;
use crate::components::member::need;
use crate::components::member::origin;
use crate::components::member::place_law;
use crate::failure::Failure;
use crate::failure::Part;
use crate::params::Params;
use crate::params::lookup;
use crate::utils::fixed::Fixed;
use crate::utils::point::Point;
use crate::utils::weight::Weight;

verus! {

/// The tail group: the horizontal and the vertical tailplane.
#[derive(Clone, Copy, Debug)]
pub struct Tailplane {
    pub ht: HorizontalTailplane,
    pub vt: VerticalTailplane,
}

impl Tailplane {
    /// The parts of the group in the order in which they are added up.
    pub open spec fn members_law(&self, w_dg: Fixed, n_z: Fixed) -> Seq<MemberView> {
        seq![
            self.ht.member_law(w_dg, n_z),
            self.vt.member_law(w_dg, n_z),
        ]
    }

    /// The parts of the group in the order in which they are added up.
    pub fn members(&self, w_dg: Fixed, n_z: Fixed) -> (ms: Vec<Member>)
        ensures
            member_views(ms@) == self.members_law(w_dg, n_z),
    {
        let ms = vec![
            self.ht.member(w_dg, n_z),
            self.vt.member(w_dg, n_z),
        ];
        assert(member_views(ms@) =~= self.members_law(w_dg, n_z));
        ms
    }

    /// The weight of the group and its moments about the three axes. Fails
    /// with the failure of the first part that has no weight or no centre of
    /// gravity.
    pub fn balance<F: Fn(&Formula) -> Option<Fixed>>(
        &self,
        w_dg: Fixed,
        n_z: Fixed,
        eval: &F,
    ) -> (r: Result<Balance, Failure>)
        requires
            accepts_all(*eval),
        ensures
            group_balances(answers_of(*eval), self.members_law(w_dg, n_z), Part::Tailplane, totals(r)),
    {
        group_balance(&self.members(w_dg, n_z), Part::Tailplane, eval)
    }

    /// The moments of the group about the three axes: the sum, over its parts,
    /// of position times weight.
    pub fn pos_times_weight<F: Fn(&Formula) -> Option<Fixed>>(
        &self,
        w_dg: Fixed,
        n_z: Fixed,
        eval: &F,
    ) -> (r: Result<Point<i128>, Failure>)
        requires
            accepts_all(*eval),
        ensures
            group_moments(answers_of(*eval), self.members_law(w_dg, n_z), Part::Tailplane, r),
    {
        group_moment(&self.members(w_dg, n_z), Part::Tailplane, eval)
    }
}

impl Component for Tailplane {
    /// The group as `table` describes it.
    open spec fn from_table(table: Map<Seq<char>, Fixed>) -> Tailplane {
        Tailplane {
            ht: HorizontalTailplane::from_table(table),
            vt: VerticalTailplane::from_table(table),
        }
    }

    /// Builds every part of the group from `params`.
    fn new(params: &Params) -> (r: Self) {
        Self {
            ht: HorizontalTailplane::new(params),
            vt: VerticalTailplane::new(params),
        }
    }

    open spec fn weight_is(
        &self,
        answers: Answers,
        w_dg: Fixed,
        n_z: Fixed,
        r: Result<Weight, Failure>,
    ) -> bool {
        group_weighs(answers, self.members_law(w_dg, n_z), Part::Tailplane, r)
    }

    /// The weight of the group: the sum of the weights of its parts. Fails
    /// with the failure of the first part that has no weight.
    fn weight<F: Fn(&Formula) -> Option<Fixed>>(
        &self,
        w_dg: Fixed,
        n_z: Fixed,
        eval: &F,
    ) -> (r: Result<Weight, Failure>)
    {
        group_weight(&self.members(w_dg, n_z), Part::Tailplane, eval)
    }

    proof fn lemma_weight_is_pure(
        &self,
        answers: Answers,
        w_dg: Fixed,
        n_z: Fixed,
        r1: Result<Weight, Failure>,
        r2: Result<Weight, Failure>,
    ) {
        lemma_group_weight_is_pure(answers, self.members_law(w_dg, n_z), Part::Tailplane, r1, r2);
    }

    open spec fn cg_is(
        &self,
        answers: Answers,
        w_dg: Fixed,
        n_z: Fixed,
        r: Result<Point<Fixed>, Failure>,
    ) -> bool {
        group_centres(answers, self.members_law(w_dg, n_z), Part::Tailplane, r)
    }

    /// The centre of gravity of the group: its moments divided by its weight.
    /// Fails as the balance does, and as invalid geometry where the group
    /// weighs nothing.
    fn cg<F: Fn(&Formula) -> Option<Fixed>>(
        &self,
        w_dg: Fixed,
        n_z: Fixed,
        eval: &F,
    ) -> (r: Result<Point<Fixed>, Failure>)
    {
        group_cg(&self.members(w_dg, n_z), Part::Tailplane, eval)
    }

    proof fn lemma_cg_is_pure(
        &self,
        answers: Answers,
        w_dg: Fixed,
        n_z: Fixed,
        r1: Result<Point<Fixed>, Failure>,
        r2: Result<Point<Fixed>, Failure>,
    ) {
        lemma_group_cg_is_pure(answers, self.members_law(w_dg, n_z), Part::Tailplane, r1, r2);
    }
}

/// The horizontal tailplane.
#[derive(Clone, Copy, Debug)]
pub struct HorizontalTailplane {
    /// 1.143 for an all-moving tail, 1.0 otherwise.
    pub k_uht: Option<Fixed>,
    /// Area of the horizontal tailplane in ft^2.
    pub s_ht: Option<Fixed>,
    /// Radius of gyration in pitch, about 0.3 L_ht, in ft.
    pub k_y: Option<Fixed>,
    /// Aspect ratio of the horizontal tailplane.
    pub ar_h: Option<Fixed>,
    /// Area of the elevator in ft^2.
    pub s_e: Option<Fixed>,
    /// Width of the fuselage where the horizontal tailplane meets it, in ft.
    pub f_w: Option<Fixed>,
    /// Span of the horizontal tailplane in ft.
    pub b_ht: Option<Fixed>,
    /// Distance from the aerodynamic centre of the wing to that of the horizontal
    /// tailplane in ft.
    pub l_ht: Option<Fixed>,
    /// Sweep of the quarter-chord line of the horizontal tailplane in rad.
    pub sweep_ht: Option<Fixed>,
    /// Root chord of the horizontal tailplane in ft.
    pub chord_ht: Option<Fixed>,
    /// Angle of attack of the horizontal tailplane in rad.
    pub aoa_ht: Option<Fixed>,
    /// Where the root of the horizontal tailplane is attached, in ft.
    pub root_ht: Point<Option<Fixed>>,
}

impl HorizontalTailplane {
    /// The weight in lb for the design gross weight `w_dg` (`W`, in lb) and the
    /// ultimate load factor `n_z` (`Nz`):
    ///
    /// `0.0379 K_uht W^0.639 Nz^0.1 S^0.75 K_y^0.704 AR^0.166 (1 + S_e/S)^0.1 / ((1 + F_w/B)^0.25 L cos(sweep))`
    ///
    /// The two brackets are stated as `(S + S_e) / S` and `(B + F_w) / B`.
    /// Fails with the first of its inputs that is absent.
    /// Else it is out of range where `s_ht + s_e` or `b_ht + f_w` cannot be held.
    /// Else it is invalid geometry where `s_ht`, `b_ht`, `b_ht + f_w` or `l_ht`
    /// is not positive or `sweep_ht` is not short of a quarter turn.
    pub open spec fn weight_law(&self, w_dg: Fixed, n_z: Fixed) -> Result<Seq<TermView>, Failure> {
        if self.k_uht is None {
            absent(Part::HorizontalTailplane, "k_uht")
        } else if self.s_ht is None {
            absent(Part::HorizontalTailplane, "s_ht")
        } else if self.k_y is None {
            absent(Part::HorizontalTailplane, "k_y")
        } else if self.ar_h is None {
            absent(Part::HorizontalTailplane, "ar_h")
        } else if self.s_e is None {
            absent(Part::HorizontalTailplane, "s_e")
        } else if self.f_w is None {
            absent(Part::HorizontalTailplane, "f_w")
        } else if self.b_ht is None {
            absent(Part::HorizontalTailplane, "b_ht")
        } else if self.l_ht is None {
            absent(Part::HorizontalTailplane, "l_ht")
        } else if self.sweep_ht is None {
            absent(Part::HorizontalTailplane, "sweep_ht")
        } else {
            let k_uht = self.k_uht.unwrap();
            let s_ht = self.s_ht.unwrap();
            let k_y = self.k_y.unwrap();
            let ar_h = self.ar_h.unwrap();
            let s_e = self.s_e.unwrap();
            let f_w = self.f_w.unwrap();
            let b_ht = self.b_ht.unwrap();
            let l_ht = self.l_ht.unwrap();
            let sweep_ht = self.sweep_ht.unwrap();
            if Fixed::sum(s_ht, s_e) is None || Fixed::sum(b_ht, f_w) is None {
                Err(Failure::OutOfRange { part: Part::HorizontalTailplane })
            } else {
                let with_elevator = Fixed::sum(s_ht, s_e).unwrap();
                let with_fuselage = Fixed::sum(b_ht, f_w).unwrap();
                if !(s_ht.raw > 0 && b_ht.raw > 0 && with_fuselage.raw > 0 && l_ht.raw > 0 && acute(sweep_ht)) {
                    Err(Failure::InvalidGeometry { part: Part::HorizontalTailplane })
                } else {
                    Ok(
                        seq![
                            term(
                                37_900,
                                seq![
                                    times(k_uht), power(w_dg, 639_000), power(n_z, 100_000),
                                    power(s_ht, 750_000), power(k_y, 704_000),
                                    power(ar_h, 166_000), power(with_elevator, 100_000),
                                    power(s_ht, -100_000), power(with_fuselage, -250_000),
                                    power(b_ht, 250_000), power(l_ht, -1_000_000),
                                    cosine(sweep_ht, -1_000_000),
                                ],
                            ),
                        ],
                    )
                }
            }
        }
    }

    /// The formula of the weight, as [`Self::weight_law`] states it.
    #[allow(unused_variables)]
    pub fn weight_formula(&self, w_dg: Fixed, n_z: Fixed) -> (r: Result<Formula, Failure>)
        ensures
            law(r) == self.weight_law(w_dg, n_z),
    {
        let k_uht = need(self.k_uht, Part::HorizontalTailplane, "k_uht")?;
        let s_ht = need(self.s_ht, Part::HorizontalTailplane, "s_ht")?;
        let k_y = need(self.k_y, Part::HorizontalTailplane, "k_y")?;
        let ar_h = need(self.ar_h, Part::HorizontalTailplane, "ar_h")?;
        let s_e = need(self.s_e, Part::HorizontalTailplane, "s_e")?;
        let f_w = need(self.f_w, Part::HorizontalTailplane, "f_w")?;
        let b_ht = need(self.b_ht, Part::HorizontalTailplane, "b_ht")?;
        let l_ht = need(self.l_ht, Part::HorizontalTailplane, "l_ht")?;
        let sweep_ht = need(self.sweep_ht, Part::HorizontalTailplane, "sweep_ht")?;
        let with_elevator = match s_ht.checked_add(s_e) {
            Some(v) => v,
            None => {
                return Err(Failure::OutOfRange { part: Part::HorizontalTailplane });
            },
        };
        let with_fuselage = match b_ht.checked_add(f_w) {
            Some(v) => v,
            None => {
                return Err(Failure::OutOfRange { part: Part::HorizontalTailplane });
            },
        };
        if !(s_ht.raw > 0 && b_ht.raw > 0 && with_fuselage.raw > 0 && l_ht.raw > 0 && is_acute(sweep_ht)) {
            return Err(Failure::InvalidGeometry { part: Part::HorizontalTailplane });
        }
        let formula_factors = vec![
            Factor::times(k_uht), Factor::power(w_dg, 639_000), Factor::power(n_z, 100_000),
            Factor::power(s_ht, 750_000), Factor::power(k_y, 704_000),
            Factor::power(ar_h, 166_000), Factor::power(with_elevator, 100_000),
            Factor::power(s_ht, -100_000), Factor::power(with_fuselage, -250_000),
            Factor::power(b_ht, 250_000), Factor::power(l_ht, -1_000_000),
            Factor::cosine(sweep_ht, -1_000_000),
        ];
        assert(formula_factors@ =~= self.weight_law(w_dg, n_z)->Ok_0[0].factors);
        let formula = Formula::single(37_900, formula_factors);
        assert(formula@ =~~= self.weight_law(w_dg, n_z)->Ok_0);
        Ok(formula)
    }

    /// The centre of gravity in ft.
    ///
    /// The tailplane acts 42 % of its root chord aft of where its root is attached,
    /// and lower by that distance times the tangent of its angle of attack:
    /// `x = x_root + 0.42 c`, `y = y_root`, `z = z_root - 0.42 c tan(aoa)`.
    /// Fails with the first of its inputs that is absent.
    /// Else it is invalid geometry where `aoa_ht` is not short of a quarter turn.
    pub open spec fn cg_law(&self) -> Result<Point<Seq<TermView>>, Failure> {
        if self.root_ht.x is None {
            absent(Part::HorizontalTailplane, "x_root_ht")
        } else if self.root_ht.y is None {
            absent(Part::HorizontalTailplane, "y_root_ht")
        } else if self.root_ht.z is None {
            absent(Part::HorizontalTailplane, "z_root_ht")
        } else if self.chord_ht is None {
            absent(Part::HorizontalTailplane, "chord_ht")
        } else if self.aoa_ht is None {
            absent(Part::HorizontalTailplane, "aoa_ht")
        } else {
            let x_root_ht = self.root_ht.x.unwrap();
            let y_root_ht = self.root_ht.y.unwrap();
            let z_root_ht = self.root_ht.z.unwrap();
            let chord_ht = self.chord_ht.unwrap();
            let aoa_ht = self.aoa_ht.unwrap();
            if !(acute(aoa_ht)) {
                Err(Failure::InvalidGeometry { part: Part::HorizontalTailplane })
            } else {
                Ok(
                    Point {
                        x: seq![
                            term(1_000_000, seq![times(x_root_ht)]),
                            term(420_000, seq![times(chord_ht)]),
                        ],
                        y: constant(y_root_ht),
                        z: seq![
                            term(1_000_000, seq![times(z_root_ht)]),
                            term(-420_000, seq![times(chord_ht), tangent(aoa_ht)]),
                        ],
                    },
                )
            }
        }
    }

    /// The formulas of the centre of gravity, as [`Self::cg_law`] states them.
    pub fn cg_formula(&self) -> (r: Result<Point<Formula>, Failure>)
        ensures
            place_law(r) == self.cg_law(),
    {
        let x_root_ht = need(self.root_ht.x, Part::HorizontalTailplane, "x_root_ht")?;
        let y_root_ht = need(self.root_ht.y, Part::HorizontalTailplane, "y_root_ht")?;
        let z_root_ht = need(self.root_ht.z, Part::HorizontalTailplane, "z_root_ht")?;
        let chord_ht = need(self.chord_ht, Part::HorizontalTailplane, "chord_ht")?;
        let aoa_ht = need(self.aoa_ht, Part::HorizontalTailplane, "aoa_ht")?;
        if !(is_acute(aoa_ht)) {
            return Err(Failure::InvalidGeometry { part: Part::HorizontalTailplane });
        }
        let x_0 = Term::new(1_000_000, vec![Factor::times(x_root_ht)]);
        assert(x_0@.factors =~= self.cg_law()->Ok_0.x[0].factors);
        let x_1 = Term::new(420_000, vec![Factor::times(chord_ht)]);
        assert(x_1@.factors =~= self.cg_law()->Ok_0.x[1].factors);
        let ghost x_terms = seq![x_0@, x_1@];
        let x = Formula::sum(vec![x_0, x_1]);
        assert(x@ =~= x_terms);
        assert(x@ =~~= self.cg_law()->Ok_0.x);
        let y = Formula::constant(y_root_ht);
        let z_0 = Term::new(1_000_000, vec![Factor::times(z_root_ht)]);
        assert(z_0@.factors =~= self.cg_law()->Ok_0.z[0].factors);
        let z_1 = Term::new(-420_000, vec![Factor::times(chord_ht), Factor::tangent(aoa_ht)]);
        assert(z_1@.factors =~= self.cg_law()->Ok_0.z[1].factors);
        let ghost z_terms = seq![z_0@, z_1@];
        let z = Formula::sum(vec![z_0, z_1]);
        assert(z@ =~= z_terms);
        assert(z@ =~~= self.cg_law()->Ok_0.z);
        Ok(Point::new(x, y, z))
    }

    /// The part as a member of a group.
    pub open spec fn member_law(&self, w_dg: Fixed, n_z: Fixed) -> MemberView {
        MemberView {
            part: Part::HorizontalTailplane,
            origin: at_origin(),
            weight: self.weight_law(w_dg, n_z),
            position: self.cg_law(),
        }
    }

    /// The part as a member of a group.
    pub fn member(&self, w_dg: Fixed, n_z: Fixed) -> (m: Member)
        ensures
            m@ == self.member_law(w_dg, n_z),
    {
        Member {
            part: Part::HorizontalTailplane,
            origin: origin(),
            weight: self.weight_formula(w_dg, n_z),
            position: self.cg_formula(),
        }
    }
}

impl Component for HorizontalTailplane {
    /// The part as `table` describes it: each field is the value under its
    /// symbol, or absent where the table has none.
    open spec fn from_table(table: Map<Seq<char>, Fixed>) -> HorizontalTailplane {
        HorizontalTailplane {
            k_uht: lookup(table, "k_uht"@),
            s_ht: lookup(table, "s_ht"@),
            k_y: lookup(table, "k_y"@),
            ar_h: lookup(table, "ar_h"@),
            s_e: lookup(table, "s_e"@),
            f_w: lookup(table, "f_w"@),
            b_ht: lookup(table, "b_ht"@),
            l_ht: lookup(table, "l_ht"@),
            sweep_ht: lookup(table, "sweep_ht"@),
            chord_ht: lookup(table, "chord_ht"@),
            aoa_ht: lookup(table, "aoa_ht"@),
            root_ht: Point {
                x: lookup(table, "x_root_ht"@),
                y: lookup(table, "y_root_ht"@),
                z: lookup(table, "z_root_ht"@),
            },
        }
    }

    /// Takes from `params` what the part needs. This never fails: a value
    /// that is absent is missed only when it is used.
    fn new(params: &Params) -> (r: Self) {
        Self {
            k_uht: params.get("k_uht"),
            s_ht: params.get("s_ht"),
            k_y: params.get("k_y"),
            ar_h: params.get("ar_h"),
            s_e: params.get("s_e"),
            f_w: params.get("f_w"),
            b_ht: params.get("b_ht"),
            l_ht: params.get("l_ht"),
            sweep_ht: params.get("sweep_ht"),
            chord_ht: params.get("chord_ht"),
            aoa_ht: params.get("aoa_ht"),
            root_ht: Point::new(
                params.get("x_root_ht"),
                params.get("y_root_ht"),
                params.get("z_root_ht"),
            ),
        }
    }

    open spec fn weight_is(
        &self,
        answers: Answers,
        w_dg: Fixed,
        n_z: Fixed,
        r: Result<Weight, Failure>,
    ) -> bool {
        weighs(answers, Part::HorizontalTailplane, self.weight_law(w_dg, n_z), r)
    }

    /// The weight of the part: the value that `eval` gives the formula of its
    /// weight, which must not be negative.
    fn weight<F: Fn(&Formula) -> Option<Fixed>>(
        &self,
        w_dg: Fixed,
        n_z: Fixed,
        eval: &F,
    ) -> (r: Result<Weight, Failure>)
    {
        weigh(Part::HorizontalTailplane, &self.weight_formula(w_dg, n_z), eval)
    }

    proof fn lemma_weight_is_pure(
        &self,
        answers: Answers,
        w_dg: Fixed,
        n_z: Fixed,
        r1: Result<Weight, Failure>,
        r2: Result<Weight, Failure>,
    ) {
        lemma_weight_is_pure(answers, Part::HorizontalTailplane, self.weight_law(w_dg, n_z), r1, r2);
    }

    open spec fn cg_is(
        &self,
        answers: Answers,
        w_dg: Fixed,
        n_z: Fixed,
        r: Result<Point<Fixed>, Failure>,
    ) -> bool {
        locates(answers, Part::HorizontalTailplane, at_origin(), self.cg_law(), r)
    }

    /// The centre of gravity of the part: the values that `eval` gives the
    /// formulas of its position. The two numbers are not used.
    #[allow(unused_variables)]
    fn cg<F: Fn(&Formula) -> Option<Fixed>>(
        &self,
        w_dg: Fixed,
        n_z: Fixed,
        eval: &F,
    ) -> (r: Result<Point<Fixed>, Failure>)
    {
        locate(Part::HorizontalTailplane, origin(), &self.cg_formula(), eval)
    }

    proof fn lemma_cg_is_pure(
        &self,
        answers: Answers,
        w_dg: Fixed,
        n_z: Fixed,
        r1: Result<Point<Fixed>, Failure>,
        r2: Result<Point<Fixed>, Failure>,
    ) {
        lemma_cg_is_pure(answers, Part::HorizontalTailplane, at_origin(), self.cg_law(), r1, r2);
    }
}

/// The vertical tailplane.
#[derive(Clone, Copy, Debug)]
pub struct VerticalTailplane {
    /// Height of the horizontal tailplane above the fuselage in ft; 0 where it is
    /// mounted on the fuselage.
    pub h_t: Option<Fixed>,
    /// Height of the vertical tailplane above the fuselage in ft.
    pub h_v: Option<Fixed>,
    /// Area of the vertical tailplane in ft^2.
    pub s_vt: Option<Fixed>,
    /// Radius of gyration in yaw, about L_vt, in ft.
    pub k_z: Option<Fixed>,
    /// Aspect ratio of the vertical tailplane.
    pub ar_v: Option<Fixed>,
    /// Distance from the aerodynamic centre of the wing to that of the vertical
    /// tailplane in ft.
    pub l_vt: Option<Fixed>,
    /// Sweep of the quarter-chord line of the vertical tailplane in rad.
    pub sweep_vt: Option<Fixed>,
    /// Thickness to chord ratio at the root of the vertical tailplane.
    pub t_c_ratio_root_v: Option<Fixed>,
    /// Chord at 55 % of the fin height in ft.
    pub chord_55_vt: Option<Fixed>,
    /// Height of the fin in ft.
    pub fin_height_vt: Option<Fixed>,
    /// Where the vertical tailplane is attached to the fuselage, in ft.
    pub root_vt: Point<Option<Fixed>>,
}

impl VerticalTailplane {
    /// The weight in lb for the design gross weight `w_dg` (`W`, in lb) and the
    /// ultimate load factor `n_z` (`Nz`):
    ///
    /// `0.0026 (1 + H_t/H_v)^0.225 W^0.556 Nz^0.536 S^0.5 K_z^0.875 AR^0.35 / (L^0.5 cos(sweep) (t/c)^0.5)`
    ///
    /// The first bracket is stated as `(H_v + H_t) / H_v`.
    /// Fails with the first of its inputs that is absent.
    /// Else it is out of range where `h_v + h_t` cannot be held.
    /// Else it is invalid geometry where `h_v`, `l_vt` or `t_c_ratio_root_v` is
    /// not positive or `sweep_vt` is not short of a quarter turn.
    pub open spec fn weight_law(&self, w_dg: Fixed, n_z: Fixed) -> Result<Seq<TermView>, Failure> {
        if self.h_t is None {
            absent(Part::VerticalTailplane, "h_t")
        } else if self.h_v is None {
            absent(Part::VerticalTailplane, "h_v")
        } else if self.s_vt is None {
            absent(Part::VerticalTailplane, "s_vt")
        } else if self.k_z is None {
            absent(Part::VerticalTailplane, "k_z")
        } else if self.ar_v is None {
            absent(Part::VerticalTailplane, "ar_v")
        } else if self.l_vt is None {
            absent(Part::VerticalTailplane, "l_vt")
        } else if self.sweep_vt is None {
            absent(Part::VerticalTailplane, "sweep_vt")
        } else if self.t_c_ratio_root_v is None {
            absent(Part::VerticalTailplane, "t_c_ratio_root_v")
        } else {
            let h_t = self.h_t.unwrap();
            let h_v = self.h_v.unwrap();
            let s_vt = self.s_vt.unwrap();
            let k_z = self.k_z.unwrap();
            let ar_v = self.ar_v.unwrap();
            let l_vt = self.l_vt.unwrap();
            let sweep_vt = self.sweep_vt.unwrap();
            let t_c_ratio_root_v = self.t_c_ratio_root_v.unwrap();
            if Fixed::sum(h_v, h_t) is None {
                Err(Failure::OutOfRange { part: Part::VerticalTailplane })
            } else {
                let tail_height = Fixed::sum(h_v, h_t).unwrap();
                if !(h_v.raw > 0 && l_vt.raw > 0 && t_c_ratio_root_v.raw > 0 && acute(sweep_vt)) {
                    Err(Failure::InvalidGeometry { part: Part::VerticalTailplane })
                } else {
                    Ok(
                        seq![
                            term(
                                2_600,
                                seq![
                                    power(tail_height, 225_000), power(h_v, -225_000),
                                    power(w_dg, 556_000), power(n_z, 536_000),
                                    power(s_vt, 500_000), power(k_z, 875_000),
                                    power(ar_v, 350_000), power(l_vt, -500_000),
                                    cosine(sweep_vt, -1_000_000),
                                    power(t_c_ratio_root_v, -500_000),
                                ],
                            ),
                        ],
                    )
                }
            }
        }
    }

    /// The formula of the weight, as [`Self::weight_law`] states it.
    #[allow(unused_variables)]
    pub fn weight_formula(&self, w_dg: Fixed, n_z: Fixed) -> (r: Result<Formula, Failure>)
        ensures
            law(r) == self.weight_law(w_dg, n_z),
    {
        let h_t = need(self.h_t, Part::VerticalTailplane, "h_t")?;
        let h_v = need(self.h_v, Part::VerticalTailplane, "h_v")?;
        let s_vt = need(self.s_vt, Part::VerticalTailplane, "s_vt")?;
        let k_z = need(self.k_z, Part::VerticalTailplane, "k_z")?;
        let ar_v = need(self.ar_v, Part::VerticalTailplane, "ar_v")?;
        let l_vt = need(self.l_vt, Part::VerticalTailplane, "l_vt")?;
        let sweep_vt = need(self.sweep_vt, Part::VerticalTailplane, "sweep_vt")?;
        let t_c_ratio_root_v = need(self.t_c_ratio_root_v, Part::VerticalTailplane, "t_c_ratio_root_v")?;
        let tail_height = match h_v.checked_add(h_t) {
            Some(v) => v,
            None => {
                return Err(Failure::OutOfRange { part: Part::VerticalTailplane });
            },
        };
        if !(h_v.raw > 0 && l_vt.raw > 0 && t_c_ratio_root_v.raw > 0 && is_acute(sweep_vt)) {
            return Err(Failure::InvalidGeometry { part: Part::VerticalTailplane });
        }
        let formula_factors = vec![
            Factor::power(tail_height, 225_000), Factor::power(h_v, -225_000),
            Factor::power(w_dg, 556_000), Factor::power(n_z, 536_000),
            Factor::power(s_vt, 500_000), Factor::power(k_z, 875_000),
            Factor::power(ar_v, 350_000), Factor::power(l_vt, -500_000),
            Factor::cosine(sweep_vt, -1_000_000), Factor::power(t_c_ratio_root_v, -500_000),
        ];
        assert(formula_factors@ =~= self.weight_law(w_dg, n_z)->Ok_0[0].factors);
        let formula = Formula::single(2_600, formula_factors);
        assert(formula@ =~~= self.weight_law(w_dg, n_z)->Ok_0);
        Ok(formula)
    }

    /// The centre of gravity in ft.
    ///
    /// The fin acts at 55 % of its height `h` above where it is attached, 42 % of
    /// the chord at that height aft of the leading edge, which the sweep has
    /// carried aft: `x = x_root + 0.42 c + 0.55 h tan(sweep)`, `y = y_root`,
    /// `z = z_root + 0.55 h`.
    /// Fails with the first of its inputs that is absent.
    /// Else it is invalid geometry where `sweep_vt` is not short of a quarter
    /// turn.
    pub open spec fn cg_law(&self) -> Result<Point<Seq<TermView>>, Failure> {
        if self.root_vt.x is None {
            absent(Part::VerticalTailplane, "x_root_vt")
        } else if self.root_vt.y is None {
            absent(Part::VerticalTailplane, "y_root_vt")
        } else if self.root_vt.z is None {
            absent(Part::VerticalTailplane, "z_root_vt")
        } else if self.chord_55_vt is None {
            absent(Part::VerticalTailplane, "chord_55_vt")
        } else if self.fin_height_vt is None {
            absent(Part::VerticalTailplane, "fin_height_vt")
        } else if self.sweep_vt is None {
            absent(Part::VerticalTailplane, "sweep_vt")
        } else {
            let x_root_vt = self.root_vt.x.unwrap();
            let y_root_vt = self.root_vt.y.unwrap();
            let z_root_vt = self.root_vt.z.unwrap();
            let chord_55_vt = self.chord_55_vt.unwrap();
            let fin_height_vt = self.fin_height_vt.unwrap();
            let sweep_vt = self.sweep_vt.unwrap();
            if !(acute(sweep_vt)) {
                Err(Failure::InvalidGeometry { part: Part::VerticalTailplane })
            } else {
                Ok(
                    Point {
                        x: seq![
                            term(1_000_000, seq![times(x_root_vt)]),
                            term(420_000, seq![times(chord_55_vt)]),
                            term(550_000, seq![times(fin_height_vt), tangent(sweep_vt)]),
                        ],
                        y: constant(y_root_vt),
                        z: seq![
                            term(1_000_000, seq![times(z_root_vt)]),
                            term(550_000, seq![times(fin_height_vt)]),
                        ],
                    },
                )
            }
        }
    }

    /// The formulas of the centre of gravity, as [`Self::cg_law`] states them.
    pub fn cg_formula(&self) -> (r: Result<Point<Formula>, Failure>)
        ensures
            place_law(r) == self.cg_law(),
    {
        let x_root_vt = need(self.root_vt.x, Part::VerticalTailplane, "x_root_vt")?;
        let y_root_vt = need(self.root_vt.y, Part::VerticalTailplane, "y_root_vt")?;
        let z_root_vt = need(self.root_vt.z, Part::VerticalTailplane, "z_root_vt")?;
        let chord_55_vt = need(self.chord_55_vt, Part::VerticalTailplane, "chord_55_vt")?;
        let fin_height_vt = need(self.fin_height_vt, Part::VerticalTailplane, "fin_height_vt")?;
        let sweep_vt = need(self.sweep_vt, Part::VerticalTailplane, "sweep_vt")?;
        if !(is_acute(sweep_vt)) {
            return Err(Failure::InvalidGeometry { part: Part::VerticalTailplane });
        }
        let x_0 = Term::new(1_000_000, vec![Factor::times(x_root_vt)]);
        assert(x_0@.factors =~= self.cg_law()->Ok_0.x[0].factors);
        let x_1 = Term::new(420_000, vec![Factor::times(chord_55_vt)]);
        assert(x_1@.factors =~= self.cg_law()->Ok_0.x[1].factors);
        let x_2 = Term::new(550_000, vec![
            Factor::times(fin_height_vt), Factor::tangent(sweep_vt),
        ]);
        assert(x_2@.factors =~= self.cg_law()->Ok_0.x[2].factors);
        let ghost x_terms = seq![x_0@, x_1@, x_2@];
        let x = Formula::sum(vec![x_0, x_1, x_2]);
        assert(x@ =~= x_terms);
        assert(x@ =~~= self.cg_law()->Ok_0.x);
        let y = Formula::constant(y_root_vt);
        let z_0 = Term::new(1_000_000, vec![Factor::times(z_root_vt)]);
        assert(z_0@.factors =~= self.cg_law()->Ok_0.z[0].factors);
        let z_1 = Term::new(550_000, vec![Factor::times(fin_height_vt)]);
        assert(z_1@.factors =~= self.cg_law()->Ok_0.z[1].factors);
        let ghost z_terms = seq![z_0@, z_1@];
        let z = Formula::sum(vec![z_0, z_1]);
        assert(z@ =~= z_terms);
        assert(z@ =~~= self.cg_law()->Ok_0.z);
        Ok(Point::new(x, y, z))
    }

    /// The part as a member of a group.
    pub open spec fn member_law(&self, w_dg: Fixed, n_z: Fixed) -> MemberView {
        MemberView {
            part: Part::VerticalTailplane,
            origin: at_origin(),
            weight: self.weight_law(w_dg, n_z),
            position: self.cg_law(),
        }
    }

    /// The part as a member of a group.
    pub fn member(&self, w_dg: Fixed, n_z: Fixed) -> (m: Member)
        ensures
            m@ == self.member_law(w_dg, n_z),
    {
        Member {
            part: Part::VerticalTailplane,
            origin: origin(),
            weight: self.weight_formula(w_dg, n_z),
            position: self.cg_formula(),
        }
    }
}

impl Component for VerticalTailplane {
    /// The part as `table` describes it: each field is the value under its
    /// symbol, or absent where the table has none.
    open spec fn from_table(table: Map<Seq<char>, Fixed>) -> VerticalTailplane {
        VerticalTailplane {
            h_t: lookup(table, "h_t"@),
            h_v: lookup(table, "h_v"@),
            s_vt: lookup(table, "s_vt"@),
            k_z: lookup(table, "k_z"@),
            ar_v: lookup(table, "ar_v"@),
            l_vt: lookup(table, "l_vt"@),
            sweep_vt: lookup(table, "sweep_vt"@),
            t_c_ratio_root_v: lookup(table, "t_c_ratio_root_v"@),
            chord_55_vt: lookup(table, "chord_55_vt"@),
            fin_height_vt: lookup(table, "fin_height_vt"@),
            root_vt: Point {
                x: lookup(table, "x_root_vt"@),
                y: lookup(table, "y_root_vt"@),
                z: lookup(table, "z_root_vt"@),
            },
        }
    }

    /// Takes from `params` what the part needs. This never fails: a value
    /// that is absent is missed only when it is used.
    fn new(params: &Params) -> (r: Self) {
        Self {
            h_t: params.get("h_t"),
            h_v: params.get("h_v"),
            s_vt: params.get("s_vt"),
            k_z: params.get("k_z"),
            ar_v: params.get("ar_v"),
            l_vt: params.get("l_vt"),
            sweep_vt: params.get("sweep_vt"),
            t_c_ratio_root_v: params.get("t_c_ratio_root_v"),
            chord_55_vt: params.get("chord_55_vt"),
            fin_height_vt: params.get("fin_height_vt"),
            root_vt: Point::new(
                params.get("x_root_vt"),
                params.get("y_root_vt"),
                params.get("z_root_vt"),
            ),
        }
    }

    open spec fn weight_is(
        &self,
        answers: Answers,
        w_dg: Fixed,
        n_z: Fixed,
        r: Result<Weight, Failure>,
    ) -> bool {
        weighs(answers, Part::VerticalTailplane, self.weight_law(w_dg, n_z), r)
    }

    /// The weight of the part: the value that `eval` gives the formula of its
    /// weight, which must not be negative.
    fn weight<F: Fn(&Formula) -> Option<Fixed>>(
        &self,
        w_dg: Fixed,
        n_z: Fixed,
        eval: &F,
    ) -> (r: Result<Weight, Failure>)
    {
        weigh(Part::VerticalTailplane, &self.weight_formula(w_dg, n_z), eval)
    }

    proof fn lemma_weight_is_pure(
        &self,
        answers: Answers,
        w_dg: Fixed,
        n_z: Fixed,
        r1: Result<Weight, Failure>,
        r2: Result<Weight, Failure>,
    ) {
        lemma_weight_is_pure(answers, Part::VerticalTailplane, self.weight_law(w_dg, n_z), r1, r2);
    }

    open spec fn cg_is(
        &self,
        answers: Answers,
        w_dg: Fixed,
        n_z: Fixed,
        r: Result<Point<Fixed>, Failure>,
    ) -> bool {
        locates(answers, Part::VerticalTailplane, at_origin(), self.cg_law(), r)
    }

    /// The centre of gravity of the part: the values that `eval` gives the
    /// formulas of its position. The two numbers are not used.
    #[allow(unused_variables)]
    fn cg<F: Fn(&Formula) -> Option<Fixed>>(
        &self,
        w_dg: Fixed,
        n_z: Fixed,
        eval: &F,
    ) -> (r: Result<Point<Fixed>, Failure>)
    {
        locate(Part::VerticalTailplane, origin(), &self.cg_formula(), eval)
    }

    proof fn lemma_cg_is_pure(
        &self,
        answers: Answers,
        w_dg: Fixed,
        n_z: Fixed,
        r1: Result<Point<Fixed>, Failure>,
        r2: Result<Point<Fixed>, Failure>,
    ) {
        lemma_cg_is_pure(answers, Part::VerticalTailplane, at_origin(), self.cg_law(), r1, r2);
    }
}

} // verus!
