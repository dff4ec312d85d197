//! The whole aircraft.
use vstd::prelude::*;
use crate::components::evaluation::accepts_all;
use crate::components::evaluation::answers_of;
use crate::components::evaluation::single_valued;
use crate::components::laws::lemma_group_balance_is_pure;
use crate::components::evaluation::Answers;
use crate::components::group::add_weights;
use crate::components::group::added_weights;
use crate::components::group::all_totals;
use crate::components::balance::Balance;
use crate::components::balance::Totals;
use crate::components::Component;
use crate::components::group::centre_of_groups;
use crate::components::formula::Formula;
use crate::components::fuselage::Fuselage;
use crate::components::group::group_balances;
use crate::components::group::merge;
use crate::components::group::merged;
use crate::components::group::merged_centre;
use crate::components::group::moments;
use crate::components::tailplane::Tailplane;
use crate::components::group::totals;
use crate::components::wings::Wings;
use crate::failure::Failure;
use crate::failure::Part;
use crate::params::Params;
use crate::utils::fixed::Fixed;
use crate::utils::point::Point;
use crate::utils::weight::Weight;

verus! {

/// The empty aircraft: the wing group, the fuselage group and the tail
/// group.
#[derive(Clone, Copy, Debug)]
pub struct Aircraft {
    pub wings: Wings,
    pub fuselage: Fuselage,
    pub tailplane: Tailplane,
}

/// The empty weight of an aircraft and where it acts.
#[derive(Clone, Copy, Debug)]
pub struct Report {
    pub weight: Weight,
    pub cg: Point<Fixed>,
}

/// What is reported of an aircraft whose groups have these outcomes: the
/// weight of all, and the centre of gravity of all.
pub open spec fn reported(shares: Seq<Result<Totals, Failure>>) -> Result<Report, Failure> {
    match merged_centre(shares, Part::Aircraft) {
        Err(e) => Err(e),
        Ok(cg) => Ok(
            Report {
                weight: Weight::of(Fixed { raw: merged(shares, Part::Aircraft)->Ok_0.weight as i64 }),
                cg,
            },
        ),
    }
}

impl Aircraft {
    /// The aircraft with the root of its wing at `root`.
    pub fn with_wings_at(self, root: Point<Fixed>) -> (r: Self)
        ensures
            r == (Aircraft { wings: Wings { root, ..self.wings }, ..self }),
    {
        Aircraft { wings: self.wings.at(root), ..self }
    }

    /// Whether `weights` are weights that the three groups may be given
    /// in the order wings, fuselage, tail.
    pub open spec fn weights_of_groups(
        &self,
        answers: Answers,
        w_dg: Fixed,
        n_z: Fixed,
        weights: Seq<Result<Weight, Failure>>,
    ) -> bool {
        &&& weights.len() == 3
        &&& self.wings.weight_is(answers, w_dg, n_z, weights[0])
        &&& self.fuselage.weight_is(answers, w_dg, n_z, weights[1])
        &&& self.tailplane.weight_is(answers, w_dg, n_z, weights[2])
    }

    /// Whether `shares` hold weight and moments that the three groups may be
    /// given, in the order wings, fuselage, tail.
    pub open spec fn shares_of_groups(
        &self,
        answers: Answers,
        w_dg: Fixed,
        n_z: Fixed,
        shares: Seq<Result<Totals, Failure>>,
    ) -> bool {
        &&& shares.len() == 3
        &&& group_balances(answers, self.wings.members_law(w_dg, n_z), Part::Wings, shares[0])
        &&& group_balances(answers, self.fuselage.members_law(w_dg, n_z), Part::Fuselage, shares[1])
        &&& group_balances(answers, self.tailplane.members_law(w_dg, n_z), Part::Tailplane, shares[2])
    }

    /// Asked twice, the three groups have the same weight and moments, as
    /// long as every formula is given one value at most.
    pub proof fn lemma_shares_are_pure(
        &self,
        answers: Answers,
        w_dg: Fixed,
        n_z: Fixed,
        s1: Seq<Result<Totals, Failure>>,
        s2: Seq<Result<Totals, Failure>>,
    )
        requires
            single_valued(answers),
            self.shares_of_groups(answers, w_dg, n_z, s1),
            self.shares_of_groups(answers, w_dg, n_z, s2),
        ensures
            s1 == s2,
    {
        lemma_group_balance_is_pure(
            answers,
            self.wings.members_law(w_dg, n_z),
            Part::Wings,
            s1[0],
            s2[0],
        );
        lemma_group_balance_is_pure(
            answers,
            self.fuselage.members_law(w_dg, n_z),
            Part::Fuselage,
            s1[1],
            s2[1],
        );
        lemma_group_balance_is_pure(
            answers,
            self.tailplane.members_law(w_dg, n_z),
            Part::Tailplane,
            s1[2],
            s2[2],
        );
        assert(s1 =~= s2);
    }

    fn shares<F: Fn(&Formula) -> Option<Fixed>>(&self, w_dg: Fixed, n_z: Fixed, eval: &F) -> (shares:
        Vec<Result<Balance, Failure>>)
        requires
            accepts_all(*eval),
        ensures
            self.shares_of_groups(answers_of(*eval), w_dg, n_z, all_totals(shares@)),
    {
        vec![
            self.wings.balance(w_dg, n_z, eval),
            self.fuselage.balance(w_dg, n_z, eval),
            self.tailplane.balance(w_dg, n_z, eval),
        ]
    }

    /// The weight of the aircraft and its moments about the three axes.
    /// Fails with the failure of the first group that has none.
    pub fn balance<F: Fn(&Formula) -> Option<Fixed>>(
        &self,
        w_dg: Fixed,
        n_z: Fixed,
        eval: &F,
    ) -> (r: Result<Balance, Failure>)
        requires
            accepts_all(*eval),
        ensures
            exists|shares: Seq<Result<Totals, Failure>>|
                {
                    &&& self.shares_of_groups(answers_of(*eval), w_dg, n_z, shares)
                    &&& totals(r) == #[trigger] merged(shares, Part::Aircraft)
                },
    {
        let shares = self.shares(w_dg, n_z, eval);
        let r = merge(&shares, Part::Aircraft);
        assert(totals(r) == merged(all_totals(shares@), Part::Aircraft));
        r
    }

    /// The moments of the aircraft about the three axes: the sum, over all
    /// its parts, of position times weight.
    pub fn pos_times_weight<F: Fn(&Formula) -> Option<Fixed>>(
        &self,
        w_dg: Fixed,
        n_z: Fixed,
        eval: &F,
    ) -> (r: Result<Point<i128>, Failure>)
        requires
            accepts_all(*eval),
        ensures
            exists|shares: Seq<Result<Totals, Failure>>|
                {
                    &&& self.shares_of_groups(answers_of(*eval), w_dg, n_z, shares)
                    &&& r == moments(#[trigger] merged(shares, Part::Aircraft))
                },
    {
        let shares = self.shares(w_dg, n_z, eval);
        let b = merge(&shares, Part::Aircraft);
        assert(totals(b) == merged(all_totals(shares@), Part::Aircraft));
        match b {
            Err(e) => Err(e),
            Ok(balance) => Ok(balance.pos_times_weight()),
        }
    }

    /// The empty weight of the aircraft and its centre of gravity, from one
    /// evaluation of every part.
    pub fn report<F: Fn(&Formula) -> Option<Fixed>>(
        &self,
        w_dg: Fixed,
        n_z: Fixed,
        eval: &F,
    ) -> (r: Result<Report, Failure>)
        requires
            accepts_all(*eval),
        ensures
            exists|shares: Seq<Result<Totals, Failure>>|
                {
                    &&& self.shares_of_groups(answers_of(*eval), w_dg, n_z, shares)
                    &&& r == #[trigger] reported(shares)
                },
    {
        let shares = self.shares(w_dg, n_z, eval);
        let r = settle_report(&shares);
        assert(r == reported(all_totals(shares@)));
        r
    }
}

impl Component for Aircraft {
    /// The aircraft as `table` describes it, with the root of its wing at
    /// the origin.
    open spec fn from_table(table: Map<Seq<char>, Fixed>) -> Aircraft {
        Aircraft {
            wings: Wings::from_table(table),
            fuselage: Fuselage::from_table(table),
            tailplane: Tailplane::from_table(table),
        }
    }

    /// Builds every group of the aircraft from `params`.
    fn new(params: &Params) -> (r: Self) {
        Self {
            wings: Wings::new(params),
            fuselage: Fuselage::new(params),
            tailplane: Tailplane::new(params),
        }
    }

    open spec fn weight_is(
        &self,
        answers: Answers,
        w_dg: Fixed,
        n_z: Fixed,
        r: Result<Weight, Failure>,
    ) -> bool {
        exists|weights: Seq<Result<Weight, Failure>>|
            {
                &&& self.weights_of_groups(answers, w_dg, n_z, weights)
                &&& r == #[trigger] added_weights(weights, Part::Aircraft)
            }
    }

    /// The empty weight: the sum of the weights of the three groups. Fails
    /// with the failure of the first group that has no weight.
    fn weight<F: Fn(&Formula) -> Option<Fixed>>(&self, w_dg: Fixed, n_z: Fixed, eval: &F) -> (r:
        Result<Weight, Failure>) {
        let weights = vec![
            self.wings.weight(w_dg, n_z, eval),
            self.fuselage.weight(w_dg, n_z, eval),
            self.tailplane.weight(w_dg, n_z, eval),
        ];
        let r = add_weights(&weights, Part::Aircraft);
        proof {
            assert(self.weights_of_groups(answers_of(*eval), w_dg, n_z, weights@));
            assert(r == added_weights(weights@, Part::Aircraft));
        }
        r
    }

    proof fn lemma_weight_is_pure(
        &self,
        answers: Answers,
        w_dg: Fixed,
        n_z: Fixed,
        r1: Result<Weight, Failure>,
        r2: Result<Weight, Failure>,
    ) {
        let w1 = choose|weights: Seq<Result<Weight, Failure>>|
            {
                &&& self.weights_of_groups(answers, w_dg, n_z, weights)
                &&& r1 == #[trigger] added_weights(weights, Part::Aircraft)
            };
        let w2 = choose|weights: Seq<Result<Weight, Failure>>|
            {
                &&& self.weights_of_groups(answers, w_dg, n_z, weights)
                &&& r2 == #[trigger] added_weights(weights, Part::Aircraft)
            };
        self.wings.lemma_weight_is_pure(answers, w_dg, n_z, w1[0], w2[0]);
        self.fuselage.lemma_weight_is_pure(answers, w_dg, n_z, w1[1], w2[1]);
        self.tailplane.lemma_weight_is_pure(answers, w_dg, n_z, w1[2], w2[2]);
        assert(w1 =~= w2);
    }

    open spec fn cg_is(
        &self,
        answers: Answers,
        w_dg: Fixed,
        n_z: Fixed,
        r: Result<Point<Fixed>, Failure>,
    ) -> bool {
        exists|shares: Seq<Result<Totals, Failure>>|
            {
                &&& self.shares_of_groups(answers, w_dg, n_z, shares)
                &&& r == #[trigger] merged_centre(shares, Part::Aircraft)
            }
    }

    /// The centre of gravity of the aircraft: the moments of all its groups
    /// divided by the weight of all. Fails with the failure of the first
    /// group that has no balance, and as invalid geometry where a group
    /// weighs nothing.
    fn cg<F: Fn(&Formula) -> Option<Fixed>>(&self, w_dg: Fixed, n_z: Fixed, eval: &F) -> (r: Result<
        Point<Fixed>,
        Failure,
    >) {
        let shares = self.shares(w_dg, n_z, eval);
        let r = centre_of_groups(&shares, Part::Aircraft);
        assert(r == merged_centre(all_totals(shares@), Part::Aircraft));
        r
    }

    proof fn lemma_cg_is_pure(
        &self,
        answers: Answers,
        w_dg: Fixed,
        n_z: Fixed,
        r1: Result<Point<Fixed>, Failure>,
        r2: Result<Point<Fixed>, Failure>,
    ) {
        let s1 = choose|shares: Seq<Result<Totals, Failure>>|
            {
                &&& self.shares_of_groups(answers, w_dg, n_z, shares)
                &&& r1 == #[trigger] merged_centre(shares, Part::Aircraft)
            };
        let s2 = choose|shares: Seq<Result<Totals, Failure>>|
            {
                &&& self.shares_of_groups(answers, w_dg, n_z, shares)
                &&& r2 == #[trigger] merged_centre(shares, Part::Aircraft)
            };
        self.lemma_shares_are_pure(answers, w_dg, n_z, s1, s2);
    }
}

/// What is reported of an aircraft whose groups have these outcomes.
pub fn settle_report(shares: &Vec<Result<Balance, Failure>>) -> (r: Result<Report, Failure>)
    ensures
        r == reported(all_totals(shares@)),
{
    match centre_of_groups(shares, Part::Aircraft) {
        Err(e) => Err(e),
        Ok(cg) => match merge(shares, Part::Aircraft) {
            Ok(b) => {
                let weight = b.weight();
                proof {
                    Weight::lemma_of_view(weight);
                }
                Ok(Report { weight, cg })
            },
            Err(e) => Err(e),
        },
    }
}

} // verus!
