//! Adding up the members of a group, and groups of groups.
//!
//! A group fails with the failure of the first of its members that fails.
//! Where none fails, its weight is the sum of their weights, its moments are
//! the sums of weight times position, and its centre of gravity is moment
//! divided by weight.
use vstd::prelude::*;
use crate::components::balance::Balance;
use crate::components::balance::Contribution;
use crate::components::balance::Totals;
use crate::components::balance::balance_views;
use crate::components::evaluation::accepts_all;
use crate::components::evaluation::answers_of;
use crate::components::evaluation::Answers;
use crate::components::evaluation::contributes;
use crate::components::evaluation::contribution;
use crate::components::evaluation::weigh;
use crate::components::evaluation::weighs;
use crate::components::formula::Formula;
use crate::components::member::Member;
use crate::components::member::MemberView;
use crate::components::member::member_views;
use crate::failure::Failure;
use crate::failure::Part;
use crate::utils::fixed::Fixed;
use crate::utils::point::Point;
use crate::utils::weight::Weight;

verus! {

/// The failure of the first of `outcomes` that is one, if any is.
pub open spec fn first_error<T>(outcomes: Seq<Result<T, Failure>>) -> Option<Failure>
    decreases outcomes.len(),
{
    if outcomes.len() == 0 {
        None
    } else {
        match first_error(outcomes.drop_last()) {
            Some(e) => Some(e),
            None => match outcomes.last() {
                Err(e) => Some(e),
                Ok(_) => None,
            },
        }
    }
}

/// The values of outcomes none of which is a failure.
pub open spec fn successes<T>(outcomes: Seq<Result<T, Failure>>) -> Seq<T> {
    outcomes.map_values(|r: Result<T, Failure>| r->Ok_0)
}

/// The sum of `weights` in millionths of a pound.
pub open spec fn weight_sum(weights: Seq<Weight>) -> int
    decreases weights.len(),
{
    if weights.len() == 0 {
        0
    } else {
        weight_sum(weights.drop_last()) + weights.last()@.raw
    }
}

/// The weight of a group from the weights of its members: the first
/// failure among them, else their sum, which is out of range where it is too
/// large to be held.
pub open spec fn added_weights(outcomes: Seq<Result<Weight, Failure>>, part: Part) -> Result<
    Weight,
    Failure,
> {
    match first_error(outcomes) {
        Some(e) => Err(e),
        None => if weight_sum(successes(outcomes)) <= i64::MAX {
            Ok(Weight::of(Fixed { raw: weight_sum(successes(outcomes)) as i64 }))
        } else {
            Err(Failure::OutOfRange { part })
        },
    }
}

/// The weight and moments of a group from what its members contribute: the
/// first failure among them, else their totals, which are out of range where
/// the weight is too large to be held.
pub open spec fn gathered(outcomes: Seq<Result<Contribution, Failure>>, part: Part) -> Result<
    Totals,
    Failure,
> {
    match first_error(outcomes) {
        Some(e) => Err(e),
        None => if Totals::of_all(successes(outcomes)).weight <= i64::MAX {
            Ok(Totals::of_all(successes(outcomes)))
        } else {
            Err(Failure::OutOfRange { part })
        },
    }
}

/// The totals that a balance holds, where there is one.
pub open spec fn totals(balance: Result<Balance, Failure>) -> Result<Totals, Failure> {
    match balance {
        Ok(b) => Ok(b@),
        Err(e) => Err(e),
    }
}

/// The centre of gravity of a group with these totals. A group that weighs
/// nothing has none.
pub open spec fn centred(balance: Result<Totals, Failure>, part: Part) -> Result<
    Point<Fixed>,
    Failure,
> {
    match balance {
        Err(e) => Err(e),
        Ok(t) => if t.weight == 0 {
            Err(Failure::InvalidGeometry { part })
        } else {
            Ok(t.cg())
        },
    }
}

proof fn lemma_first_error_at<T>(outcomes: Seq<Result<T, Failure>>, i: int)
    requires
        0 <= i < outcomes.len(),
        forall|j: int| 0 <= j < i ==> (#[trigger] outcomes[j]) is Ok,
        outcomes[i] is Err,
    ensures
        first_error(outcomes) == Some(outcomes[i]->Err_0),
    decreases outcomes.len(),
{
    let front = outcomes.drop_last();
    if i < outcomes.len() - 1 {
        assert forall|j: int| 0 <= j < i implies (#[trigger] front[j]) is Ok by {
            assert(front[j] == outcomes[j]);
        }
        lemma_first_error_at(front, i);
    } else {
        assert forall|j: int| 0 <= j < front.len() implies (#[trigger] front[j]) is Ok by {
            assert(front[j] == outcomes[j]);
        }
        lemma_no_error(front);
    }
}

proof fn lemma_no_error<T>(outcomes: Seq<Result<T, Failure>>)
    requires
        forall|j: int| 0 <= j < outcomes.len() ==> (#[trigger] outcomes[j]) is Ok,
    ensures
        first_error(outcomes) is None,
    decreases outcomes.len(),
{
    if outcomes.len() > 0 {
        let front = outcomes.drop_last();
        assert forall|j: int| 0 <= j < front.len() implies (#[trigger] front[j]) is Ok by {
            assert(front[j] == outcomes[j]);
        }
        lemma_no_error(front);
        assert(outcomes.last() == outcomes[outcomes.len() - 1]);
    }
}

/// A group fails where one of its members does.
pub proof fn lemma_failure_spreads<T>(outcomes: Seq<Result<T, Failure>>, i: int)
    requires
        0 <= i < outcomes.len(),
        outcomes[i] is Err,
    ensures
        first_error(outcomes) is Some,
    decreases outcomes.len(),
{
    if i < outcomes.len() - 1 {
        lemma_failure_spreads(outcomes.drop_last(), i);
    }
}

/// The values of `outcomes` in order, or the first failure among them.
fn collect<T: Copy>(outcomes: &Vec<Result<T, Failure>>) -> (r: Result<Vec<T>, Failure>)
    ensures
        match first_error(outcomes@) {
            Some(e) => r == Err::<Vec<T>, Failure>(e),
            None => r is Ok && r->Ok_0@ == successes(outcomes@),
        },
{
    let mut values: Vec<T> = Vec::new();
    let mut i: usize = 0;
    while i < outcomes.len()
        invariant
            i <= outcomes.len(),
            values@.len() == i,
            forall|j: int| 0 <= j < i ==> (#[trigger] outcomes@[j]) is Ok,
            forall|j: int| 0 <= j < i ==> values@[j] == (#[trigger] outcomes@[j])->Ok_0,
        decreases outcomes.len() - i,
    {
        match &outcomes[i] {
            Err(e) => {
                proof {
                    lemma_first_error_at(outcomes@, i as int);
                }
                return Err(*e);
            },
            Ok(v) => {
                values.push(*v);
            },
        }
        i += 1;
    }
    proof {
        lemma_no_error(outcomes@);
        assert(values@ =~= successes(outcomes@));
    }
    Ok(values)
}

/// The weight of a group from the weights of its members.
pub fn add_weights(outcomes: &Vec<Result<Weight, Failure>>, part: Part) -> (r: Result<
    Weight,
    Failure,
>)
    ensures
        r == added_weights(outcomes@, part),
{
    let weights: Vec<Weight> = match collect(outcomes) {
        Err(e) => {
            return Err(e);
        },
        Ok(weights) => weights,
    };
    let mut total: i128 = 0;
    let mut i: usize = 0;
    assert(weights@.subrange(0, 0) =~= Seq::<Weight>::empty());
    while i < weights.len()
        invariant
            i <= weights.len(),
            total == weight_sum(weights@.subrange(0, i as int)),
            0 <= total <= i * 0x7fff_ffff_ffff_ffff,
        decreases weights.len() - i,
    {
        let amount: Fixed = weights[i].get_val();
        proof {
            assert(weights@.subrange(0, i + 1).drop_last() =~= weights@.subrange(0, i as int));
            assert(weights@.subrange(0, i + 1).last() == weights@[i as int]);
            assert((i + 1) * 0x7fff_ffff_ffff_ffff <= 0x7fff_ffff_ffff_ffff_ffff_ffff_ffff_ffff)
                by (nonlinear_arith)
                requires
                    i + 1 <= 0xffff_ffff_ffff_ffff,
            ;
            assert((i + 1) * 0x7fff_ffff_ffff_ffff == i * 0x7fff_ffff_ffff_ffff
                + 0x7fff_ffff_ffff_ffff) by (nonlinear_arith);
        }
        total = total + amount.raw as i128;
        i += 1;
    }
    assert(weights@.subrange(0, i as int) =~= weights@);
    if total > i64::MAX as i128 {
        Err(Failure::OutOfRange { part })
    } else {
        Ok(Weight::new(Fixed { raw: total as i64 }).unwrap())
    }
}

/// The weight and moments of a group from what its members contribute.
pub fn gather(outcomes: &Vec<Result<Contribution, Failure>>, part: Part) -> (r: Result<
    Balance,
    Failure,
>)
    ensures
        totals(r) == gathered(outcomes@, part),
{
    match collect(outcomes) {
        Err(e) => Err(e),
        Ok(items) => match Balance::of(&items) {
            Some(b) => Ok(b),
            None => Err(Failure::OutOfRange { part }),
        },
    }
}

/// The centre of gravity of a group with this balance.
pub fn centre_of(balance: &Result<Balance, Failure>, part: Part) -> (r: Result<
    Point<Fixed>,
    Failure,
>)
    ensures
        r == centred(totals(*balance), part),
{
    match balance {
        Err(e) => Err(*e),
        Ok(b) => match b.cg() {
            Some(p) => Ok(p),
            None => Err(Failure::InvalidGeometry { part }),
        },
    }
}

/// Whether `r` is a weight that the group `part` of `members` may be given
///: what the weights of its members add up to.
pub open spec fn group_weighs(
    answers: Answers,
    members: Seq<MemberView>,
    part: Part,
    r: Result<Weight, Failure>,
) -> bool {
    exists|outcomes: Seq<Result<Weight, Failure>>|
        {
            &&& outcomes.len() == members.len()
            &&& forall|i: int|
                0 <= i < members.len() ==> weighs(
                    answers,
                    (#[trigger] members[i]).part,
                    members[i].weight,
                    outcomes[i],
                )
            &&& r == #[trigger] added_weights(outcomes, part)
        }
}

/// The weight of the group `part` of `members`.
pub fn group_weight<F: Fn(&Formula) -> Option<Fixed>>(
    members: &Vec<Member>,
    part: Part,
    eval: &F,
) -> (r: Result<Weight, Failure>)
    requires
        accepts_all(*eval),
    ensures
        group_weighs(answers_of(*eval), member_views(members@), part, r),
{
    let mut outcomes: Vec<Result<Weight, Failure>> = Vec::new();
    let mut i: usize = 0;
    let ghost views = member_views(members@);
    while i < members.len()
        invariant
            i <= members.len(),
            outcomes@.len() == i,
            accepts_all(*eval),
            views == member_views(members@),
            forall|j: int|
                0 <= j < i ==> weighs(
                    answers_of(*eval),
                    (#[trigger] views[j]).part,
                    views[j].weight,
                    outcomes@[j],
                ),
        decreases members.len() - i,
    {
        let member: &Member = &members[i];
        let w = weigh(member.part, &member.weight, eval);
        assert(views[i as int] == member@);
        outcomes.push(w);
        i += 1;
    }
    let r = add_weights(&outcomes, part);
    assert(r == added_weights(outcomes@, part));
    r
}

/// Whether `r` holds weight and moments that the group `part` of `members`
/// may be given: what its members contribute, gathered.
pub open spec fn group_balances(
    answers: Answers,
    members: Seq<MemberView>,
    part: Part,
    r: Result<Totals, Failure>,
) -> bool {
    exists|outcomes: Seq<Result<Contribution, Failure>>|
        {
            &&& outcomes.len() == members.len()
            &&& forall|i: int|
                0 <= i < members.len() ==> contributes(answers, #[trigger] members[i], outcomes[i])
            &&& r == #[trigger] gathered(outcomes, part)
        }
}

/// The weight and moments of the group `part` of `members`.
pub fn group_balance<F: Fn(&Formula) -> Option<Fixed>>(
    members: &Vec<Member>,
    part: Part,
    eval: &F,
) -> (r: Result<Balance, Failure>)
    requires
        accepts_all(*eval),
    ensures
        group_balances(answers_of(*eval), member_views(members@), part, totals(r)),
{
    let mut outcomes: Vec<Result<Contribution, Failure>> = Vec::new();
    let mut i: usize = 0;
    let ghost views = member_views(members@);
    while i < members.len()
        invariant
            i <= members.len(),
            outcomes@.len() == i,
            accepts_all(*eval),
            views == member_views(members@),
            forall|j: int|
                0 <= j < i ==> contributes(answers_of(*eval), #[trigger] views[j], outcomes@[j]),
        decreases members.len() - i,
    {
        let member: &Member = &members[i];
        let c = contribution(member, eval);
        assert(views[i as int] == member@);
        outcomes.push(c);
        i += 1;
    }
    let r = gather(&outcomes, part);
    assert(totals(r) == gathered(outcomes@, part));
    r
}

/// Whether `r` is a centre of gravity that the group `part` of `members`
/// may be given.
pub open spec fn group_centres(
    answers: Answers,
    members: Seq<MemberView>,
    part: Part,
    r: Result<Point<Fixed>, Failure>,
) -> bool {
    exists|b: Result<Totals, Failure>|
        {
            &&& group_balances(answers, members, part, b)
            &&& r == #[trigger] centred(b, part)
        }
}

/// The centre of gravity of the group `part` of `members`: the sum of
/// weight times position over its members, divided by the sum of their
/// weights.
pub fn group_cg<F: Fn(&Formula) -> Option<Fixed>>(
    members: &Vec<Member>,
    part: Part,
    eval: &F,
) -> (r: Result<Point<Fixed>, Failure>)
    requires
        accepts_all(*eval),
    ensures
        group_centres(answers_of(*eval), member_views(members@), part, r),
{
    let b = group_balance(members, part, eval);
    let r = centre_of(&b, part);
    assert(r == centred(totals(b), part));
    r
}

/// The moments that a balance holds, where there is one.
pub open spec fn moments(balance: Result<Totals, Failure>) -> Result<Point<i128>, Failure> {
    match balance {
        Err(e) => Err(e),
        Ok(t) => Ok(Point { x: t.x as i128, y: t.y as i128, z: t.z as i128 }),
    }
}

/// Whether `r` holds moments that the group `part` of `members` may be
/// given under `eval`.
pub open spec fn group_moments(
    answers: Answers,
    members: Seq<MemberView>,
    part: Part,
    r: Result<Point<i128>, Failure>,
) -> bool {
    exists|b: Result<Totals, Failure>|
        {
            &&& group_balances(answers, members, part, b)
            &&& r == #[trigger] moments(b)
        }
}

/// The moments of the group `part` of `members` about the three axes: the
/// sum, over its members, of position times weight.
pub fn group_moment<F: Fn(&Formula) -> Option<Fixed>>(
    members: &Vec<Member>,
    part: Part,
    eval: &F,
) -> (r: Result<Point<i128>, Failure>)
    requires
        accepts_all(*eval),
    ensures
        group_moments(answers_of(*eval), member_views(members@), part, r),
{
    let b = group_balance(members, part, eval);
    let r = match b {
        Err(e) => Err(e),
        Ok(balance) => Ok(balance.pos_times_weight()),
    };
    assert(r == moments(totals(b)));
    r
}

/// The totals of the outcomes of several groups.
pub open spec fn all_totals(shares: Seq<Result<Balance, Failure>>) -> Seq<Result<Totals, Failure>> {
    shares.map_values(|s: Result<Balance, Failure>| totals(s))
}

/// The weight and moments of a group of groups: the first failure among its
/// groups, else their totals together, which are out of range where the
/// weight is too large to be held.
pub open spec fn merged(shares: Seq<Result<Totals, Failure>>, part: Part) -> Result<
    Totals,
    Failure,
> {
    match first_error(shares) {
        Some(e) => Err(e),
        None => if Totals::sum(successes(shares)).weight <= i64::MAX {
            Ok(Totals::sum(successes(shares)))
        } else {
            Err(Failure::OutOfRange { part })
        },
    }
}

/// Whether one of the groups weighs nothing, and so has no centre of
/// gravity.
pub open spec fn has_weightless(shares: Seq<Result<Totals, Failure>>) -> bool {
    exists|i: int| 0 <= i < shares.len() && (#[trigger] shares[i]) is Ok && shares[i]->Ok_0.weight == 0
}

/// The centre of gravity of a group of groups: the first failure among its
/// groups; else invalid geometry where one of them weighs nothing; else the
/// moments of all divided by the weight of all.
pub open spec fn merged_centre(shares: Seq<Result<Totals, Failure>>, part: Part) -> Result<
    Point<Fixed>,
    Failure,
> {
    match first_error(shares) {
        Some(e) => Err(e),
        None => if has_weightless(shares) {
            Err(Failure::InvalidGeometry { part })
        } else {
            centred(merged(shares, part), part)
        },
    }
}

proof fn lemma_all_totals(shares: Seq<Result<Balance, Failure>>)
    ensures
        first_error(all_totals(shares)) == first_error(shares),
        first_error(shares) is None ==> successes(all_totals(shares)) == balance_views(
            successes(shares),
        ),
    decreases shares.len(),
{
    if shares.len() > 0 {
        let front = shares.drop_last();
        lemma_all_totals(front);
        assert(all_totals(shares).drop_last() =~= all_totals(front));
        assert(all_totals(shares).last() == totals(shares.last()));
    }
    if first_error(shares) is None {
        lemma_none_fails(shares);
        assert(successes(all_totals(shares)) =~= balance_views(successes(shares)));
    }
}

pub proof fn lemma_none_fails<T>(outcomes: Seq<Result<T, Failure>>)
    requires
        first_error(outcomes) is None,
    ensures
        forall|j: int| 0 <= j < outcomes.len() ==> (#[trigger] outcomes[j]) is Ok,
    decreases outcomes.len(),
{
    if outcomes.len() > 0 {
        let front = outcomes.drop_last();
        lemma_none_fails(front);
        assert forall|j: int| 0 <= j < outcomes.len() implies (#[trigger] outcomes[j]) is Ok by {
            if j < front.len() {
                assert(front[j] == outcomes[j]);
            }
        }
    }
}

/// The weight and moments of a group of groups.
pub fn merge(shares: &Vec<Result<Balance, Failure>>, part: Part) -> (r: Result<Balance, Failure>)
    ensures
        totals(r) == merged(all_totals(shares@), part),
{
    proof {
        lemma_all_totals(shares@);
    }
    match collect(shares) {
        Err(e) => Err(e),
        Ok(groups) => match Balance::sum_of(&groups) {
            Some(b) => Ok(b),
            None => Err(Failure::OutOfRange { part }),
        },
    }
}

/// The centre of gravity of a group of groups.
pub fn centre_of_groups(shares: &Vec<Result<Balance, Failure>>, part: Part) -> (r: Result<
    Point<Fixed>,
    Failure,
>)
    ensures
        r == merged_centre(all_totals(shares@), part),
{
    proof {
        lemma_all_totals(shares@);
    }
    let groups: Vec<Balance> = match collect(shares) {
        Err(e) => {
            return Err(e);
        },
        Ok(groups) => groups,
    };
    let ghost views = all_totals(shares@);
    proof {
        lemma_none_fails(shares@);
    }
    let mut i: usize = 0;
    while i < groups.len()
        invariant
            i <= groups.len(),
            groups@ == successes(shares@),
            views == all_totals(shares@),
            first_error(views) is None,
            forall|j: int| 0 <= j < shares@.len() ==> (#[trigger] shares@[j]) is Ok,
            forall|j: int| 0 <= j < i ==> (#[trigger] views[j])->Ok_0.weight != 0,
        decreases groups.len() - i,
    {
        assert(views[i as int] == totals(shares@[i as int]));
        assert(successes(shares@)[i as int] == shares@[i as int]->Ok_0);
        if groups[i].is_weightless() {
            assert(successes(shares@)[i as int] == shares@[i as int]->Ok_0);
            assert(views[i as int] is Ok && views[i as int]->Ok_0.weight == 0);
            assert(has_weightless(views));
            assert(first_error(views) is None);
            return Err(Failure::InvalidGeometry { part });
        }
        i += 1;
    }
    assert(!has_weightless(views));
    let b = merge(shares, part);
    centre_of(&b, part)
}

} // verus!
