//! What holds of every part and every group.
use vstd::prelude::*;
use crate::components::member::absent;
use crate::components::group::added_weights;
use crate::components::balance::coordinate;
use crate::components::balance::lemma_cg_within_hull;
use crate::components::balance::lemma_group_cg_within_hull;
use crate::components::balance::lemma_weight_is_sum;
use crate::components::balance::Axis;
use crate::components::balance::Contribution;
use crate::components::balance::Totals;
use crate::components::group::centred;
use crate::components::evaluation::answers_of;
use crate::components::evaluation::contributes;
use crate::components::evaluation::Answers;
use crate::components::formula::polynomial;
use crate::components::formula::Formula;
use crate::components::formula::TermView;
use crate::components::group::gathered;
use crate::components::group::group_balances;
use crate::components::group::group_centres;
use crate::components::group::group_weighs;
use crate::components::group::has_weightless;
use crate::components::evaluation::joined;
use crate::components::group::lemma_failure_spreads;
use crate::components::group::lemma_none_fails;
use crate::components::evaluation::locates;
use crate::components::group::merged;
use crate::components::group::merged_centre;
use crate::components::evaluation::settled_position;
use crate::components::evaluation::single_valued;
use crate::components::evaluation::settled_weight;
use crate::components::group::successes;
use crate::components::evaluation::weighs;
use crate::components::group::weight_sum;
use crate::components::evaluation::yields;
use crate::components::member::MemberView;
use crate::failure::Failure;
use crate::failure::Part;
use crate::utils::fixed::Fixed;
use crate::utils::point::Point;
use crate::utils::weight::Weight;

verus! {

/// Whether `eval` gives formulas with the same terms the same value, each
/// time it is called.
pub open spec fn repeatable<F: Fn(&Formula) -> Option<Fixed>>(eval: F) -> bool {
    forall|f1: Formula, f2: Formula, v1: Option<Fixed>, v2: Option<Fixed>|
        f1@ == f2@ && #[trigger] call_ensures(eval, (&f1,), v1) && #[trigger] call_ensures(
            eval,
            (&f2,),
            v2,
        ) ==> v1 == v2
}

/// An evaluator that gives the same formula the same value each time gives
/// every formula one value at most.
pub proof fn lemma_repeatable_is_single_valued<F: Fn(&Formula) -> Option<Fixed>>(eval: F)
    requires
        repeatable(eval),
    ensures
        single_valued(answers_of(eval)),
{
    reveal(yields);
    let answers = answers_of(eval);
    assert forall|terms: Seq<TermView>, v1: Option<Fixed>, v2: Option<Fixed>|
        #[trigger] answers(terms, v1) && #[trigger] answers(terms, v2) implies v1 == v2 by {
        if !polynomial(terms) {
            let f1 = choose|f: Formula| f@ == terms && #[trigger] call_ensures(eval, (&f,), v1);
            let f2 = choose|f: Formula| f@ == terms && #[trigger] call_ensures(eval, (&f,), v2);
            assert(call_ensures(eval, (&f1,), v1) && call_ensures(eval, (&f2,), v2));
        }
    }
}

/// The weight of a part depends on nothing but the part, the two arguments
/// and the evaluator: asked twice, a part weighs the same, as long as every
/// formula is given one value at most.
pub proof fn lemma_weight_is_pure(
    answers: Answers,
    part: Part,
    formula: Result<Seq<TermView>, Failure>,
    r1: Result<Weight, Failure>,
    r2: Result<Weight, Failure>,
)
    requires
        single_valued(answers),
        weighs(answers, part, formula, r1),
        weighs(answers, part, formula, r2),
    ensures
        r1 == r2,
{
    if formula is Ok {
        let terms = formula->Ok_0;
        let v1 = choose|v: Option<Fixed>| #[trigger]
            answers(terms, v) && r1 == settled_weight(part, v);
        let v2 = choose|v: Option<Fixed>| #[trigger]
            answers(terms, v) && r2 == settled_weight(part, v);
        assert(answers(terms, v1) && answers(terms, v2));
    }
}

/// Asked twice, a part has the same centre of gravity, as long as every
/// formula is given one value at most.
pub proof fn lemma_cg_is_pure(
    answers: Answers,
    part: Part,
    origin: Point<Fixed>,
    position: Result<Point<Seq<TermView>>, Failure>,
    r1: Result<Point<Fixed>, Failure>,
    r2: Result<Point<Fixed>, Failure>,
)
    requires
        single_valued(answers),
        locates(answers, part, origin, position, r1),
        locates(answers, part, origin, position, r2),
    ensures
        r1 == r2,
{
    if position is Ok {
        let p = position->Ok_0;
        let (x1, y1, z1) = choose|x: Option<Fixed>, y: Option<Fixed>, z: Option<Fixed>|
            {
                &&& answers(p.x, x)
                &&& answers(p.y, y)
                &&& answers(p.z, z)
                &&& r1 == #[trigger] settled_position(part, origin, x, y, z)
            };
        let (x2, y2, z2) = choose|x: Option<Fixed>, y: Option<Fixed>, z: Option<Fixed>|
            {
                &&& answers(p.x, x)
                &&& answers(p.y, y)
                &&& answers(p.z, z)
                &&& r2 == #[trigger] settled_position(part, origin, x, y, z)
            };
        assert(answers(p.x, x1) && answers(p.x, x2));
        assert(answers(p.y, y1) && answers(p.y, y2));
        assert(answers(p.z, z1) && answers(p.z, z2));
    }
}

/// Asked twice, a member contributes the same.
pub proof fn lemma_contribution_is_pure(
    answers: Answers,
    member: MemberView,
    r1: Result<Contribution, Failure>,
    r2: Result<Contribution, Failure>,
)
    requires
        single_valued(answers),
        contributes(answers, member, r1),
        contributes(answers, member, r2),
    ensures
        r1 == r2,
{
    let (w1, p1) = choose|w: Result<Weight, Failure>, p: Result<Point<Fixed>, Failure>|
        {
            &&& weighs(answers, member.part, member.weight, w)
            &&& locates(answers, member.part, member.origin, member.position, p)
            &&& r1 == #[trigger] joined(member.part, w, p)
        };
    let (w2, p2) = choose|w: Result<Weight, Failure>, p: Result<Point<Fixed>, Failure>|
        {
            &&& weighs(answers, member.part, member.weight, w)
            &&& locates(answers, member.part, member.origin, member.position, p)
            &&& r2 == #[trigger] joined(member.part, w, p)
        };
    lemma_weight_is_pure(answers, member.part, member.weight, w1, w2);
    lemma_cg_is_pure(answers, member.part, member.origin, member.position, p1, p2);
}

/// Asked twice, a group weighs the same.
pub proof fn lemma_group_weight_is_pure(
    answers: Answers,
    members: Seq<MemberView>,
    part: Part,
    r1: Result<Weight, Failure>,
    r2: Result<Weight, Failure>,
)
    requires
        single_valued(answers),
        group_weighs(answers, members, part, r1),
        group_weighs(answers, members, part, r2),
    ensures
        r1 == r2,
{
    let o1 = choose|outcomes: Seq<Result<Weight, Failure>>|
        {
            &&& outcomes.len() == members.len()
            &&& forall|i: int|
                0 <= i < members.len() ==> weighs(
                    answers,
                    (#[trigger] members[i]).part,
                    members[i].weight,
                    outcomes[i],
                )
            &&& r1 == #[trigger] added_weights(outcomes, part)
        };
    let o2 = choose|outcomes: Seq<Result<Weight, Failure>>|
        {
            &&& outcomes.len() == members.len()
            &&& forall|i: int|
                0 <= i < members.len() ==> weighs(
                    answers,
                    (#[trigger] members[i]).part,
                    members[i].weight,
                    outcomes[i],
                )
            &&& r2 == #[trigger] added_weights(outcomes, part)
        };
    assert forall|i: int| 0 <= i < members.len() implies o1[i] == o2[i] by {
        let m = members[i];
        lemma_weight_is_pure(answers, m.part, m.weight, o1[i], o2[i]);
    }
    assert(o1 =~= o2);
}

/// Asked twice, a group has the same centre of gravity.
pub proof fn lemma_group_cg_is_pure(
    answers: Answers,
    members: Seq<MemberView>,
    part: Part,
    r1: Result<Point<Fixed>, Failure>,
    r2: Result<Point<Fixed>, Failure>,
)
    requires
        single_valued(answers),
        group_centres(answers, members, part, r1),
        group_centres(answers, members, part, r2),
    ensures
        r1 == r2,
{
    let b1 = choose|b: Result<Totals, Failure>|
        group_balances(answers, members, part, b) && r1 == #[trigger] centred(b, part);
    let b2 = choose|b: Result<Totals, Failure>|
        group_balances(answers, members, part, b) && r2 == #[trigger] centred(b, part);
    lemma_group_balance_is_pure(answers, members, part, b1, b2);
}

/// Asked twice, a group has the same weight and moments.
pub proof fn lemma_group_balance_is_pure(
    answers: Answers,
    members: Seq<MemberView>,
    part: Part,
    r1: Result<Totals, Failure>,
    r2: Result<Totals, Failure>,
)
    requires
        single_valued(answers),
        group_balances(answers, members, part, r1),
        group_balances(answers, members, part, r2),
    ensures
        r1 == r2,
{
    let o1 = choose|outcomes: Seq<Result<Contribution, Failure>>|
        {
            &&& outcomes.len() == members.len()
            &&& forall|i: int|
                0 <= i < members.len() ==> contributes(answers, #[trigger] members[i], outcomes[i])
            &&& r1 == #[trigger] gathered(outcomes, part)
        };
    let o2 = choose|outcomes: Seq<Result<Contribution, Failure>>|
        {
            &&& outcomes.len() == members.len()
            &&& forall|i: int|
                0 <= i < members.len() ==> contributes(answers, #[trigger] members[i], outcomes[i])
            &&& r2 == #[trigger] gathered(outcomes, part)
        };
    assert forall|i: int| 0 <= i < members.len() implies o1[i] == o2[i] by {
        lemma_contribution_is_pure(answers, members[i], o1[i], o2[i]);
    }
    assert(o1 =~= o2);
}

/// The weight of a group is the sum of the weights of its members: where
/// the group has a weight, every member has one, and the weight of the
/// group is their sum.
pub proof fn lemma_group_weight_is_sum(
    answers: Answers,
    members: Seq<MemberView>,
    part: Part,
    r: Result<Weight, Failure>,
)
    requires
        group_weighs(answers, members, part, r),
        r is Ok,
    ensures
        exists|weights: Seq<Weight>|
            {
                &&& weights.len() == members.len()
                &&& forall|i: int|
                    0 <= i < members.len() ==> weighs(
                        answers,
                        (#[trigger] members[i]).part,
                        members[i].weight,
                        Ok(weights[i]),
                    )
                &&& r->Ok_0@.raw == #[trigger] weight_sum(weights)
            },
{
    let outcomes = choose|outcomes: Seq<Result<Weight, Failure>>|
        {
            &&& outcomes.len() == members.len()
            &&& forall|i: int|
                0 <= i < members.len() ==> weighs(
                    answers,
                    (#[trigger] members[i]).part,
                    members[i].weight,
                    outcomes[i],
                )
            &&& r == #[trigger] added_weights(outcomes, part)
        };
    lemma_none_fails(outcomes);
    let weights = successes(outcomes);
    assert forall|i: int| 0 <= i < members.len() implies weighs(
        answers,
        (#[trigger] members[i]).part,
        members[i].weight,
        Ok(weights[i]),
    ) by {
        assert(outcomes[i] is Ok);
        assert(outcomes[i] == Ok::<Weight, Failure>(weights[i]));
    }
    assert forall|i: int| 0 <= i < weights.len() implies (#[trigger] weights[i])@.raw >= 0 by {
        lemma_weight_is_not_negative(answers, members[i].part, members[i].weight, weights[i]);
    }
    lemma_weight_sum_is_not_negative(weights);
    Weight::lemma_view_of(Fixed { raw: weight_sum(weights) as i64 });
    assert(r->Ok_0@.raw == weight_sum(weights));
}

/// The weight of a part is not negative.
pub proof fn lemma_weight_is_not_negative(
    answers: Answers,
    part: Part,
    formula: Result<Seq<TermView>, Failure>,
    weight: Weight,
)
    requires
        weighs(answers, part, formula, Ok(weight)),
    ensures
        weight@.raw >= 0,
{
    let r = Ok::<Weight, Failure>(weight);
    let v = choose|v: Option<Fixed>| #[trigger]
        answers(formula->Ok_0, v) && r == settled_weight(part, v);
    Weight::lemma_view_of(v->Some_0);
}

proof fn lemma_weight_sum_is_not_negative(weights: Seq<Weight>)
    requires
        forall|i: int| 0 <= i < weights.len() ==> (#[trigger] weights[i])@.raw >= 0,
    ensures
        weight_sum(weights) >= 0,
    decreases weights.len(),
{
    if weights.len() > 0 {
        let front = weights.drop_last();
        assert forall|i: int| 0 <= i < front.len() implies (#[trigger] front[i])@.raw >= 0 by {
            assert(front[i] == weights[i]);
        }
        lemma_weight_sum_is_not_negative(front);
        assert(weights.last() == weights[weights.len() - 1]);
    }
}

/// What a member contributes weighs nothing or more.
pub proof fn lemma_contribution_weighs(
    answers: Answers,
    member: MemberView,
    item: Contribution,
)
    requires
        contributes(answers, member, Ok(item)),
    ensures
        item.weight@.raw >= 0,
{
    let r = Ok::<Contribution, Failure>(item);
    let (w, p) = choose|w: Result<Weight, Failure>, p: Result<Point<Fixed>, Failure>|
        {
            &&& weighs(answers, member.part, member.weight, w)
            &&& locates(answers, member.part, member.origin, member.position, p)
            &&& r == #[trigger] joined(member.part, w, p)
        };
    assert(w == Ok::<Weight, Failure>(item.weight));
    let v = choose|v: Option<Fixed>| #[trigger]
        answers(member.weight->Ok_0, v) && w == settled_weight(member.part, v);
    Weight::lemma_view_of(v->Some_0);
}

/// The centre of gravity of a group lies between the least and the greatest
/// position of its members: where the group has a centre of gravity, every
/// member contributes, and if each of them acts at a coordinate from `lo` to
/// `hi` along an axis, so does the group.
pub proof fn lemma_group_cg_is_between(
    answers: Answers,
    members: Seq<MemberView>,
    part: Part,
    r: Result<Point<Fixed>, Failure>,
    axis: Axis,
    lo: int,
    hi: int,
)
    requires
        group_centres(answers, members, part, r),
        r is Ok,
    ensures
        exists|items: Seq<Contribution>|
            {
                &&& items.len() == members.len()
                &&& forall|i: int|
                    0 <= i < members.len() ==> contributes(
                        answers,
                        #[trigger] members[i],
                        Ok(items[i]),
                    )
                &&& r == #[trigger] centred(gathered(wrapped(items), part), part)
                &&& (forall|i: int|
                    0 <= i < items.len() ==> lo <= coordinate((#[trigger] items[i]).cg, axis) <= hi)
                    ==> lo <= coordinate(r->Ok_0, axis) <= hi
            },
{
    let b = choose|b: Result<Totals, Failure>|
        group_balances(answers, members, part, b) && r == #[trigger] centred(b, part);
    let outcomes = choose|outcomes: Seq<Result<Contribution, Failure>>|
        {
            &&& outcomes.len() == members.len()
            &&& forall|i: int|
                0 <= i < members.len() ==> contributes(answers, #[trigger] members[i], outcomes[i])
            &&& b == #[trigger] gathered(outcomes, part)
        };
    lemma_none_fails(outcomes);
    let items = successes(outcomes);
    assert(wrapped(items) =~= outcomes);
    assert forall|i: int| 0 <= i < members.len() implies contributes(
        answers,
        #[trigger] members[i],
        Ok(items[i]),
    ) by {
        assert(outcomes[i] is Ok);
    }
    assert forall|i: int| 0 <= i < items.len() implies (#[trigger] items[i]).weight@.raw >= 0 by {
        lemma_contribution_weighs(answers, members[i], items[i]);
    }
    lemma_weight_is_sum(items);
    assert(b == Ok::<Totals, Failure>(Totals::of_all(items)));
    lemma_centre_is_between(items, axis, lo, hi);
}

/// Contributions as outcomes none of which is a failure.
pub open spec fn wrapped(items: Seq<Contribution>) -> Seq<Result<Contribution, Failure>> {
    items.map_values(|c: Contribution| Ok::<Contribution, Failure>(c))
}

/// The centre of gravity of contributions that weigh something together
/// lies between the least and the greatest of their positions.
pub proof fn lemma_centre_is_between(items: Seq<Contribution>, axis: Axis, lo: int, hi: int)
    requires
        forall|i: int| 0 <= i < items.len() ==> (#[trigger] items[i]).weight@.raw >= 0,
        Totals::of_all(items).weight > 0,
    ensures
        (forall|i: int| 0 <= i < items.len() ==> lo <= coordinate((#[trigger] items[i]).cg, axis) <= hi)
            ==> lo <= coordinate(Totals::of_all(items).cg(), axis) <= hi,
{
    let t = Totals::of_all(items);
    lemma_cg_within_hull(items, axis, i64::MIN as int, i64::MAX as int);
    if forall|i: int| 0 <= i < items.len() ==> lo <= coordinate((#[trigger] items[i]).cg, axis) <= hi {
        lemma_cg_within_hull(items, axis, lo, hi);
    }
}

/// The centre of gravity of a group of groups lies between the least and
/// the greatest centre of gravity of its groups.
pub proof fn lemma_merged_cg_is_between(
    shares: Seq<Result<Totals, Failure>>,
    part: Part,
    axis: Axis,
    lo: int,
    hi: int,
)
    requires
        merged_centre(shares, part) is Ok,
        i64::MIN <= lo,
        hi <= i64::MAX,
        forall|i: int| 0 <= i < shares.len() ==> (#[trigger] shares[i])->Ok_0.weight >= 0,
        forall|i: int|
            0 <= i < shares.len() ==> lo <= (#[trigger] shares[i])->Ok_0.centre(axis) <= hi,
    ensures
        lo <= coordinate(merged_centre(shares, part)->Ok_0, axis) <= hi,
{
    lemma_none_fails(shares);
    let groups = successes(shares);
    assert forall|i: int| 0 <= i < groups.len() implies (#[trigger] groups[i]).weight > 0 && lo
        <= groups[i].centre(axis) <= hi by {
        assert(shares[i] is Ok);
        assert(groups[i] == shares[i]->Ok_0);
        assert(!has_weightless(shares));
        assert(shares[i]->Ok_0.weight != 0);
    }
    if groups.len() > 0 {
        lemma_group_cg_within_hull(groups, axis, lo, hi);
    }
}

/// A group that weighs nothing has no centre of gravity: asking for it is
/// a failure, not a division by zero.
pub proof fn lemma_weightless_has_no_cg(t: Totals, part: Part)
    requires
        t.weight == 0,
    ensures
        centred(Ok(t), part) == Err::<Point<Fixed>, Failure>(Failure::InvalidGeometry { part }),
{
}

/// A part that lacks a parameter has no weight.
pub proof fn lemma_absent_has_no_weight(
    answers: Answers,
    part: Part,
    symbol: &'static str,
    r: Result<Weight, Failure>,
)
    requires
        weighs(answers, part, absent(part, symbol), r),
    ensures
        r == Err::<Weight, Failure>(Failure::MissingParameter { part, symbol }),
{
}

/// A part that lacks a parameter of its position has no centre of gravity.
pub proof fn lemma_absent_has_no_cg(
    answers: Answers,
    part: Part,
    origin: Point<Fixed>,
    symbol: &'static str,
    r: Result<Point<Fixed>, Failure>,
)
    requires
        locates(answers, part, origin, absent(part, symbol), r),
    ensures
        r == Err::<Point<Fixed>, Failure>(Failure::MissingParameter { part, symbol }),
{
}

/// A group one of whose members has no weight has no weight, no balance
/// and no centre of gravity.
pub proof fn lemma_failed_member_fails_group(
    answers: Answers,
    members: Seq<MemberView>,
    part: Part,
    i: int,
    weight: Result<Weight, Failure>,
    balance: Result<Totals, Failure>,
    cg: Result<Point<Fixed>, Failure>,
)
    requires
        0 <= i < members.len(),
        members[i].weight is Err,
        group_weighs(answers, members, part, weight),
        group_balances(answers, members, part, balance),
        group_centres(answers, members, part, cg),
    ensures
        weight is Err,
        balance is Err,
        cg is Err,
{
    let ws = choose|outcomes: Seq<Result<Weight, Failure>>|
        {
            &&& outcomes.len() == members.len()
            &&& forall|i: int|
                0 <= i < members.len() ==> weighs(
                    answers,
                    (#[trigger] members[i]).part,
                    members[i].weight,
                    outcomes[i],
                )
            &&& weight == #[trigger] added_weights(outcomes, part)
        };
    assert(weighs(answers, members[i].part, members[i].weight, ws[i]));
    lemma_failure_spreads(ws, i);
    lemma_member_without_weight(answers, members, part, i, balance);
    let b = choose|b: Result<Totals, Failure>|
        group_balances(answers, members, part, b) && cg == #[trigger] centred(b, part);
    lemma_member_without_weight(answers, members, part, i, b);
}

proof fn lemma_member_without_weight(
    answers: Answers,
    members: Seq<MemberView>,
    part: Part,
    i: int,
    balance: Result<Totals, Failure>,
)
    requires
        0 <= i < members.len(),
        members[i].weight is Err,
        group_balances(answers, members, part, balance),
    ensures
        balance is Err,
{
    let cs = choose|outcomes: Seq<Result<Contribution, Failure>>|
        {
            &&& outcomes.len() == members.len()
            &&& forall|i: int|
                0 <= i < members.len() ==> contributes(answers, #[trigger] members[i], outcomes[i])
            &&& balance == #[trigger] gathered(outcomes, part)
        };
    let m = members[i];
    assert(contributes(answers, m, cs[i]));
    let (w, p) = choose|w: Result<Weight, Failure>, p: Result<Point<Fixed>, Failure>|
        {
            &&& weighs(answers, m.part, m.weight, w)
            &&& locates(answers, m.part, m.origin, m.position, p)
            &&& cs[i] == #[trigger] joined(m.part, w, p)
        };
    lemma_failure_spreads(cs, i);
}

/// A group of groups one of which has no balance has none either, and no
/// centre of gravity.
pub proof fn lemma_failed_group_fails_whole(shares: Seq<Result<Totals, Failure>>, part: Part, i: int)
    requires
        0 <= i < shares.len(),
        shares[i] is Err,
    ensures
        merged(shares, part) is Err,
        merged_centre(shares, part) is Err,
{
    lemma_failure_spreads(shares, i);
}

/// A group of groups one of which has no weight has none either.
pub proof fn lemma_failed_group_fails_weight(
    weights: Seq<Result<Weight, Failure>>,
    part: Part,
    i: int,
)
    requires
        0 <= i < weights.len(),
        weights[i] is Err,
    ensures
        added_weights(weights, part) is Err,
{
    lemma_failure_spreads(weights, i);
}

} // verus!
