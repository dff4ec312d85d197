//! Weights and moments, and the centre of gravity they give.
//!
//! A group of parts weighs the sum of their weights. Its moment about an
//! axis is the sum of weight times position, and its centre of gravity is
//! moment divided by weight, rounded down to the next millionth of a foot.
use vstd::arithmetic::div_mod::lemma_div_is_ordered;
use vstd::arithmetic::div_mod::lemma_div_multiples_vanish;
use vstd::arithmetic::div_mod::lemma_div_multiples_vanish_fancy;
use vstd::arithmetic::mul::lemma_mul_is_distributive_add;
use vstd::prelude::*;
use crate::failure::Part;
use crate::utils::fixed::floor_div;
use crate::utils::fixed::Fixed;
use crate::utils::point::Point;
use crate::utils::weight::Weight;

verus! {

/// One of the three axes of the frame.
#[derive(Clone, Copy, Debug, PartialEq, Eq, Structural)]
pub enum Axis {
    X,
    Y,
    Z,
}

/// The coordinate of `p` along `axis`, in millionths of a foot.
pub open spec fn coordinate(p: Point<Fixed>, axis: Axis) -> int {
    match axis {
        Axis::X => p.x.raw as int,
        Axis::Y => p.y.raw as int,
        Axis::Z => p.z.raw as int,
    }
}

/// What one part adds to its group: a weight that acts at a point.
#[derive(Clone, Copy, Debug)]
pub struct Contribution {
    pub part: Part,
    pub weight: Weight,
    pub cg: Point<Fixed>,
}

/// A weight and its moments about the three axes, as mathematical integers:
/// the weight in millionths of a pound, the moments in millionths of a pound
/// times millionths of a foot.
pub struct Totals {
    pub weight: int,
    pub x: int,
    pub y: int,
    pub z: int,
}

impl Totals {
    pub open spec fn zero() -> Totals {
        Totals { weight: 0, x: 0, y: 0, z: 0 }
    }

    pub open spec fn plus(self, other: Totals) -> Totals {
        Totals {
            weight: self.weight + other.weight,
            x: self.x + other.x,
            y: self.y + other.y,
            z: self.z + other.z,
        }
    }

    pub open spec fn moment(self, axis: Axis) -> int {
        match axis {
            Axis::X => self.x,
            Axis::Y => self.y,
            Axis::Z => self.z,
        }
    }

    /// Weight and moments of a single contribution.
    pub open spec fn of(c: Contribution) -> Totals {
        Totals {
            weight: c.weight@.raw as int,
            x: c.weight@.raw * c.cg.x.raw,
            y: c.weight@.raw * c.cg.y.raw,
            z: c.weight@.raw * c.cg.z.raw,
        }
    }

    /// Weight and moments of several shares together.
    pub open spec fn sum(shares: Seq<Totals>) -> Totals
        decreases shares.len(),
    {
        if shares.len() == 0 {
            Totals::zero()
        } else {
            Totals::sum(shares.drop_last()).plus(shares.last())
        }
    }

    /// Weight and moments of several contributions together.
    pub open spec fn of_all(items: Seq<Contribution>) -> Totals {
        Totals::sum(items.map_values(|c: Contribution| Totals::of(c)))
    }

    /// Coordinate of the centre of gravity along `axis`. It has a meaning
    /// only where the weight is positive.
    pub open spec fn centre(self, axis: Axis) -> int {
        self.moment(axis) / self.weight
    }

    /// The centre of gravity as a point, where it can be held as one.
    pub open spec fn cg(self) -> Point<Fixed> {
        Point {
            x: Fixed { raw: self.centre(Axis::X) as i64 },
            y: Fixed { raw: self.centre(Axis::Y) as i64 },
            z: Fixed { raw: self.centre(Axis::Z) as i64 },
        }
    }

    /// Whether the weight is not negative and, along `axis`, acts at or
    /// between `lo` and `hi` (up to the rounding of a centre of gravity).
    pub open spec fn acts_within(self, axis: Axis, lo: int, hi: int) -> bool {
        &&& self.weight >= 0
        &&& lo * self.weight <= self.moment(axis)
        &&& self.moment(axis) <= hi * self.weight + if self.weight > 0 {
            self.weight - 1
        } else {
            0
        }
    }

    /// Whether the weight acts exactly at some point between `lo` and `hi`.
    pub open spec fn acts_between(self, axis: Axis, lo: int, hi: int) -> bool {
        &&& self.weight >= 0
        &&& lo * self.weight <= self.moment(axis) <= hi * self.weight
    }
}

/// Shares that each act within a range act within that range together.
pub proof fn lemma_sum_acts_within(shares: Seq<Totals>, axis: Axis, lo: int, hi: int)
    requires
        forall|i: int| 0 <= i < shares.len() ==> (#[trigger] shares[i]).acts_within(axis, lo, hi),
    ensures
        Totals::sum(shares).acts_within(axis, lo, hi),
    decreases shares.len(),
{
    if shares.len() > 0 {
        let front = shares.drop_last();
        assert forall|i: int| 0 <= i < front.len() implies (#[trigger] front[i]).acts_within(
            axis,
            lo,
            hi,
        ) by {
            assert(front[i] == shares[i]);
        }
        lemma_sum_acts_within(front, axis, lo, hi);
        let a = Totals::sum(front);
        let b = shares.last();
        assert(b.acts_within(axis, lo, hi));
        lemma_mul_is_distributive_add(lo, a.weight, b.weight);
        lemma_mul_is_distributive_add(hi, a.weight, b.weight);
    }
}

/// Shares that each act exactly between two bounds do so together.
pub proof fn lemma_sum_acts_between(shares: Seq<Totals>, axis: Axis, lo: int, hi: int)
    requires
        forall|i: int| 0 <= i < shares.len() ==> (#[trigger] shares[i]).acts_between(axis, lo, hi),
    ensures
        Totals::sum(shares).acts_between(axis, lo, hi),
    decreases shares.len(),
{
    if shares.len() > 0 {
        let front = shares.drop_last();
        assert forall|i: int| 0 <= i < front.len() implies (#[trigger] front[i]).acts_between(
            axis,
            lo,
            hi,
        ) by {
            assert(front[i] == shares[i]);
        }
        lemma_sum_acts_between(front, axis, lo, hi);
        let a = Totals::sum(front);
        let b = shares.last();
        assert(b.acts_between(axis, lo, hi));
        lemma_mul_is_distributive_add(lo, a.weight, b.weight);
        lemma_mul_is_distributive_add(hi, a.weight, b.weight);
    }
}

/// A positive weight that acts within a range has its centre of gravity in
/// that range.
pub proof fn lemma_centre_within(t: Totals, axis: Axis, lo: int, hi: int)
    requires
        t.weight > 0,
        t.acts_within(axis, lo, hi),
    ensures
        lo <= t.centre(axis) <= hi,
{
    let w = t.weight;
    let m = t.moment(axis);
    lemma_div_is_ordered(lo * w, m, w);
    lemma_div_multiples_vanish(lo, w);
    assert(lo * w == w * lo) by (nonlinear_arith);
    lemma_div_is_ordered(m, hi * w + (w - 1), w);
    lemma_div_multiples_vanish_fancy(hi, w - 1, w);
    assert(hi * w + (w - 1) == w * hi + (w - 1)) by (nonlinear_arith);
}

/// The weight of a group is the sum of the weights of its parts, and no
/// part weighs less than nothing.
pub proof fn lemma_weight_is_sum(items: Seq<Contribution>)
    requires
        forall|i: int| 0 <= i < items.len() ==> (#[trigger] items[i]).weight@.raw >= 0,
    ensures
        items.len() == 0 ==> Totals::of_all(items).weight == 0,
        items.len() > 0 ==> Totals::of_all(items).weight == Totals::of_all(
            items.drop_last(),
        ).weight + items.last().weight@.raw,
        Totals::of_all(items).weight >= 0,
    decreases items.len(),
{
    let shares = items.map_values(|c: Contribution| Totals::of(c));
    if items.len() > 0 {
        let front = items.drop_last();
        assert(shares.drop_last() =~= front.map_values(|c: Contribution| Totals::of(c)));
        assert forall|i: int| 0 <= i < front.len() implies (#[trigger] front[i]).weight@.raw
            >= 0 by {
            assert(front[i] == items[i]);
        }
        lemma_weight_is_sum(front);
    }
}

/// The centre of gravity of a group of parts lies between the least and the
/// greatest position of its parts: where every part acts at a coordinate
/// from `lo` to `hi` and the group weighs something, so does the group.
pub proof fn lemma_cg_within_hull(items: Seq<Contribution>, axis: Axis, lo: int, hi: int)
    requires
        forall|i: int| 0 <= i < items.len() ==> (#[trigger] items[i]).weight@.raw >= 0,
        forall|i: int| 0 <= i < items.len() ==> lo <= coordinate((#[trigger] items[i]).cg, axis) <= hi,
        Totals::of_all(items).weight > 0,
    ensures
        lo <= Totals::of_all(items).centre(axis) <= hi,
        Totals::of_all(items).acts_between(axis, lo, hi),
{
    let shares = items.map_values(|c: Contribution| Totals::of(c));
    assert forall|i: int| 0 <= i < shares.len() implies (#[trigger] shares[i]).acts_between(
        axis,
        lo,
        hi,
    ) by {
        let c = items[i];
        let w = c.weight@.raw as int;
        let p = coordinate(c.cg, axis);
        assert(shares[i].moment(axis) == w * p);
        assert(lo * w <= w * p <= hi * w) by (nonlinear_arith)
            requires
                w >= 0,
                lo <= p <= hi,
        ;
    }
    lemma_sum_acts_between(shares, axis, lo, hi);
    lemma_centre_within(Totals::sum(shares), axis, lo, hi);
}

/// The centre of gravity of a group of groups lies between the least and
/// the greatest centre of gravity of its members, where each member weighs
/// something.
pub proof fn lemma_group_cg_within_hull(members: Seq<Totals>, axis: Axis, lo: int, hi: int)
    requires
        members.len() > 0,
        forall|i: int| 0 <= i < members.len() ==> (#[trigger] members[i]).weight > 0,
        forall|i: int| 0 <= i < members.len() ==> lo <= (#[trigger] members[i]).centre(axis) <= hi,
    ensures
        Totals::sum(members).weight > 0,
        lo <= Totals::sum(members).centre(axis) <= hi,
{
    assert forall|i: int| 0 <= i < members.len() implies (#[trigger] members[i]).acts_within(
        axis,
        lo,
        hi,
    ) by {
        let t = members[i];
        let w = t.weight;
        let m = t.moment(axis);
        let q = m / w;
        vstd::arithmetic::div_mod::lemma_fundamental_div_mod(m, w);
        assert(lo * w <= m && m <= hi * w + (w - 1)) by (nonlinear_arith)
            requires
                m == w * q + m % w,
                0 <= m % w < w,
                lo <= q <= hi,
                w > 0,
        ;
    }
    lemma_sum_acts_within(members, axis, lo, hi);
    lemma_sum_positive(members);
    lemma_centre_within(Totals::sum(members), axis, lo, hi);
}

proof fn lemma_sum_positive(members: Seq<Totals>)
    requires
        members.len() > 0,
        forall|i: int| 0 <= i < members.len() ==> (#[trigger] members[i]).weight > 0,
    ensures
        Totals::sum(members).weight > 0,
    decreases members.len(),
{
    let front = members.drop_last();
    assert(members.last() == members[members.len() - 1]);
    if front.len() > 0 {
        assert forall|i: int| 0 <= i < front.len() implies (#[trigger] front[i]).weight > 0 by {
            assert(front[i] == members[i]);
        }
        lemma_sum_positive(front);
    } else {
        assert(Totals::sum(front) == Totals::zero());
    }
}

/// The totals that `groups` hold.
pub open spec fn balance_views(groups: Seq<Balance>) -> Seq<Totals> {
    groups.map_values(|b: Balance| b@)
}

/// Whether a moment `m` can belong to the weight `w`, given that positions
/// are held in 64 bits.
pub open spec fn moment_fits(w: int, m: int) -> bool {
    i64::MIN * w <= m <= i64::MAX * w
}

/// The weight of a group of parts and its moments about the three axes.
#[derive(Clone, Copy, Debug)]
pub struct Balance {
    weight: i64,
    x: i128,
    y: i128,
    z: i128,
}

impl View for Balance {
    type V = Totals;

    closed spec fn view(&self) -> Totals {
        Totals { weight: self.weight as int, x: self.x as int, y: self.y as int, z: self.z as int }
    }
}

impl Balance {
    #[verifier::type_invariant]
    spec fn well_formed(self) -> bool {
        &&& self.weight >= 0
        &&& moment_fits(self.weight as int, self.x as int)
        &&& moment_fits(self.weight as int, self.y as int)
        &&& moment_fits(self.weight as int, self.z as int)
    }

    /// The balance of no parts at all.
    pub fn empty() -> (b: Balance)
        ensures
            b@ == Totals::zero(),
    {
        Balance { weight: 0, x: 0, y: 0, z: 0 }
    }

    /// The balance of a single part.
    pub fn of_one(c: &Contribution) -> (b: Balance)
        ensures
            b@ == Totals::of(*c),
    {
        let w: i64 = c.weight.get_val().raw;
        let wide: i128 = w as i128;
        proof {
            lemma_product_fits(w as int, c.cg.x.raw as int);
            lemma_product_fits(w as int, c.cg.y.raw as int);
            lemma_product_fits(w as int, c.cg.z.raw as int);
        }
        Balance {
            weight: w,
            x: wide * (c.cg.x.raw as i128),
            y: wide * (c.cg.y.raw as i128),
            z: wide * (c.cg.z.raw as i128),
        }
    }

    /// The balance of this group and `other` together, or `None` where
    /// their weight is too large to be held.
    pub fn checked_plus(&self, other: &Balance) -> (r: Option<Balance>)
        ensures
            match r {
                Some(b) => self@.weight + other@.weight <= i64::MAX && b@ == self@.plus(other@),
                None => self@.weight + other@.weight > i64::MAX,
            },
    {
        proof {
            use_type_invariant(self);
            use_type_invariant(other);
        }
        match self.weight.checked_add(other.weight) {
            None => None,
            Some(weight) => {
                proof {
                    lemma_mul_is_distributive_add(
                        i64::MIN as int,
                        self.weight as int,
                        other.weight as int,
                    );
                    lemma_mul_is_distributive_add(
                        i64::MAX as int,
                        self.weight as int,
                        other.weight as int,
                    );
                    lemma_product_fits(weight as int, i64::MIN as int);
                    lemma_product_fits(weight as int, i64::MAX as int);
                }
                Some(
                    Balance {
                        weight,
                        x: self.x + other.x,
                        y: self.y + other.y,
                        z: self.z + other.z,
                    },
                )
            },
        }
    }

    /// The balance of all of `items` together, or `None` where their weight
    /// is too large to be held.
    pub fn of(items: &Vec<Contribution>) -> (r: Option<Balance>)
        ensures
            match r {
                Some(b) => Totals::of_all(items@).weight <= i64::MAX && b@ == Totals::of_all(items@),
                None => Totals::of_all(items@).weight > i64::MAX,
            },
    {
        let mut total: Balance = Balance::empty();
        let mut heavy: bool = false;
        let mut i: usize = 0;
        assert(items@.subrange(0, 0).map_values(|c: Contribution| Totals::of(c)) =~= Seq::<
            Totals,
        >::empty());
        while i < items.len()
            invariant
                i <= items.len(),
                !heavy ==> total@ == Totals::of_all(items@.subrange(0, i as int)),
                heavy ==> Totals::of_all(items@.subrange(0, i as int)).weight > i64::MAX,
            decreases items.len() - i,
        {
            let item: &Contribution = &items[i];
            let amount: Fixed = item.weight.get_val();
            proof {
                let before = items@.subrange(0, i as int);
                let after = items@.subrange(0, i + 1);
                assert(after.drop_last() =~= before);
                assert(after.map_values(|c: Contribution| Totals::of(c)).drop_last()
                    =~= before.map_values(|c: Contribution| Totals::of(c)));
                assert(after.last() == *item);
            }
            if !heavy {
                match total.checked_plus(&Balance::of_one(item)) {
                    Some(next) => {
                        total = next;
                    },
                    None => {
                        heavy = true;
                    },
                }
            }
            i += 1;
        }
        assert(items@.subrange(0, i as int) =~= items@);
        if heavy {
            None
        } else {
            Some(total)
        }
    }

    /// The balance of all of `groups` together, or `None` where their weight
    /// is too large to be held.
    pub fn sum_of(groups: &Vec<Balance>) -> (r: Option<Balance>)
        ensures
            match r {
                Some(b) => Totals::sum(balance_views(groups@)).weight <= i64::MAX && b@
                    == Totals::sum(balance_views(groups@)),
                None => Totals::sum(balance_views(groups@)).weight > i64::MAX,
            },
    {
        let mut total: Balance = Balance::empty();
        let mut heavy: bool = false;
        let mut i: usize = 0;
        assert(balance_views(groups@.subrange(0, 0)) =~= Seq::<Totals>::empty());
        while i < groups.len()
            invariant
                i <= groups.len(),
                !heavy ==> total@ == Totals::sum(balance_views(groups@.subrange(0, i as int))),
                heavy ==> Totals::sum(balance_views(groups@.subrange(0, i as int))).weight
                    > i64::MAX,
            decreases groups.len() - i,
        {
            let group: &Balance = &groups[i];
            proof {
                use_type_invariant(group);
                let before = groups@.subrange(0, i as int);
                let after = groups@.subrange(0, i + 1);
                assert(after.drop_last() =~= before);
                assert(balance_views(after).drop_last() =~= balance_views(before));
                assert(balance_views(after).last() == group@);
            }
            if !heavy {
                match total.checked_plus(group) {
                    Some(next) => {
                        total = next;
                    },
                    None => {
                        heavy = true;
                    },
                }
            }
            i += 1;
        }
        assert(groups@.subrange(0, i as int) =~= groups@);
        if heavy {
            None
        } else {
            Some(total)
        }
    }

    /// Whether the group weighs nothing.
    pub fn is_weightless(&self) -> (b: bool)
        ensures
            b == (self@.weight == 0),
    {
        self.weight == 0
    }

    /// The weight of the group.
    pub fn weight(&self) -> (w: Weight)
        ensures
            w@.raw == self@.weight,
    {
        proof {
            use_type_invariant(self);
        }
        proof {
            Weight::lemma_view_of(Fixed { raw: self.weight });
        }
        Weight::new(Fixed { raw: self.weight }).unwrap()
    }

    /// The moments of the group about the three axes: the sum, over its
    /// parts, of position times weight.
    pub fn pos_times_weight(&self) -> (m: Point<i128>)
        ensures
            m.x == self@.x,
            m.y == self@.y,
            m.z == self@.z,
    {
        Point::new(self.x, self.y, self.z)
    }

    /// The centre of gravity of the group, or `None` where the group weighs
    /// nothing.
    pub fn cg(&self) -> (r: Option<Point<Fixed>>)
        ensures
            r == if self@.weight == 0 {
                None
            } else {
                Some(self@.cg())
            },
            self@.weight != 0 ==> {
                &&& i64::MIN <= self@.centre(Axis::X) <= i64::MAX
                &&& i64::MIN <= self@.centre(Axis::Y) <= i64::MAX
                &&& i64::MIN <= self@.centre(Axis::Z) <= i64::MAX
            },
    {
        proof {
            use_type_invariant(self);
        }
        if self.weight == 0 {
            None
        } else {
            let w: i128 = self.weight as i128;
            proof {
                lemma_centre_within(self@, Axis::X, i64::MIN as int, i64::MAX as int);
                lemma_centre_within(self@, Axis::Y, i64::MIN as int, i64::MAX as int);
                lemma_centre_within(self@, Axis::Z, i64::MIN as int, i64::MAX as int);
            }
            let x: i128 = floor_div(self.x, w);
            let y: i128 = floor_div(self.y, w);
            let z: i128 = floor_div(self.z, w);
            Some(
                Point::new(Fixed { raw: x as i64 }, Fixed { raw: y as i64 }, Fixed { raw: z as i64 }),
            )
        }
    }
}

proof fn lemma_product_fits(w: int, p: int)
    requires
        0 <= w <= i64::MAX,
        i64::MIN <= p <= i64::MAX,
    ensures
        moment_fits(w, w * p),
        i128::MIN < w * p < i128::MAX,
{
    assert(i64::MIN * w <= w * p <= i64::MAX * w) by (nonlinear_arith)
        requires
            0 <= w,
            i64::MIN <= p <= i64::MAX,
    ;
    assert(-0x4000_0000_0000_0000_0000_0000_0000_0000 <= i64::MIN * w && i64::MAX * w
        <= 0x4000_0000_0000_0000_0000_0000_0000_0000) by (nonlinear_arith)
        requires
            0 <= w <= 0x7fff_ffff_ffff_ffff,
    ;
}

} // verus!
