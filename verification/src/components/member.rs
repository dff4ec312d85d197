//! Parts as members of a group.
use vstd::prelude::*;
use crate::components::formula::Formula;
use crate::components::formula::TermView;
use crate::failure::Failure;
use crate::failure::Part;
use crate::utils::fixed::Fixed;
use crate::utils::point::Point;

verus! {

/// One part as its group sees it: the formula of its weight and the
/// formulas of its centre of gravity, or why it has none. The centre of
/// gravity is measured from `origin`.
#[derive(Debug)]
pub struct Member {
    pub part: Part,
    pub origin: Point<Fixed>,
    pub weight: Result<Formula, Failure>,
    pub position: Result<Point<Formula>, Failure>,
}

/// A member as a mathematical value.
pub struct MemberView {
    pub part: Part,
    pub origin: Point<Fixed>,
    pub weight: Result<Seq<TermView>, Failure>,
    pub position: Result<Point<Seq<TermView>>, Failure>,
}

/// The terms of a formula that may be a failure.
pub open spec fn law(formula: Result<Formula, Failure>) -> Result<Seq<TermView>, Failure> {
    match formula {
        Ok(f) => Ok(f@),
        Err(e) => Err(e),
    }
}

/// The terms of the three formulas of a position that may be a failure.
pub open spec fn place_law(position: Result<Point<Formula>, Failure>) -> Result<
    Point<Seq<TermView>>,
    Failure,
> {
    match position {
        Ok(p) => Ok(Point { x: p.x@, y: p.y@, z: p.z@ }),
        Err(e) => Err(e),
    }
}

impl View for Member {
    type V = MemberView;

    open spec fn view(&self) -> MemberView {
        MemberView {
            part: self.part,
            origin: self.origin,
            weight: law(self.weight),
            position: place_law(self.position),
        }
    }
}

/// The members of a list as mathematical values.
pub open spec fn member_views(members: Seq<Member>) -> Seq<MemberView> {
    members.map_values(|m: Member| m@)
}

/// The origin of the frame.
pub open spec fn at_origin() -> Point<Fixed> {
    Point { x: Fixed { raw: 0 }, y: Fixed { raw: 0 }, z: Fixed { raw: 0 } }
}

/// The origin of the frame.
pub fn origin() -> (p: Point<Fixed>)
    ensures
        p == at_origin(),
{
    Point::new(Fixed { raw: 0 }, Fixed { raw: 0 }, Fixed { raw: 0 })
}

/// `member` with its position measured from `origin`.
pub open spec fn moved(member: MemberView, origin: Point<Fixed>) -> MemberView {
    MemberView { part: member.part, origin, weight: member.weight, position: member.position }
}

/// `member` with its position measured from `origin`.
pub fn move_to(member: Member, origin: Point<Fixed>) -> (m: Member)
    ensures
        m@ == moved(member@, origin),
{
    Member { part: member.part, origin, weight: member.weight, position: member.position }
}

/// The failure that names `symbol` as absent from what `part` needs.
pub open spec fn absent<T>(part: Part, symbol: &'static str) -> Result<T, Failure> {
    Err(Failure::MissingParameter { part, symbol })
}

/// The value of a parameter that a formula needs, or the failure that names
/// the absent symbol.
pub open spec fn needed(value: Option<Fixed>, part: Part, symbol: &'static str) -> Result<
    Fixed,
    Failure,
> {
    match value {
        Some(v) => Ok(v),
        None => absent(part, symbol),
    }
}

/// Takes the value of a parameter that a formula needs.
pub fn need(value: Option<Fixed>, part: Part, symbol: &'static str) -> (r: Result<Fixed, Failure>)
    ensures
        r == needed(value, part, symbol),
{
    match value {
        Some(v) => Ok(v),
        None => Err(Failure::MissingParameter { part, symbol }),
    }
}

/// The largest angle, in millionths of a radian, that is still short of a
/// quarter turn.
pub const QUARTER_TURN: i64 = 1_570_796;

/// Whether the cosine and the tangent of `angle` are defined and the cosine
/// is positive: the angle is short of a quarter turn to either side.
pub open spec fn acute(angle: Fixed) -> bool {
    -QUARTER_TURN <= angle.raw <= QUARTER_TURN
}

/// Whether `angle` is short of a quarter turn to either side.
pub fn is_acute(angle: Fixed) -> (b: bool)
    ensures
        b == acute(angle),
{
    -QUARTER_TURN <= angle.raw && angle.raw <= QUARTER_TURN
}

} // verus!
