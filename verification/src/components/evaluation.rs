//! Weights and positions from formulas and an evaluator.
//!
//! A formula that is a polynomial is never handed to the evaluator: its
//! value is computed. Nothing is assumed of the evaluator; what a function
//! returns is stated for whatever values the evaluator gave.
use vstd::prelude::*;
use crate::components::balance::Contribution;
use crate::components::formula::Formula;
use crate::components::formula::TermView;
use crate::components::formula::polynomial;
use crate::components::formula::polynomial_value;
use crate::components::member::Member;
use crate::components::member::MemberView;
use crate::components::member::law;
use crate::components::member::place_law;
use crate::failure::Failure;
use crate::failure::Part;
use crate::utils::fixed::Fixed;
use crate::utils::point::Point;
use crate::utils::weight::Weight;

verus! {

/// Whether `eval` may be called on every formula.
pub open spec fn accepts_all<F: Fn(&Formula) -> Option<Fixed>>(eval: F) -> bool {
    forall|f: &Formula| call_requires(eval, (f,))
}

/// What an evaluator may answer: `answers(terms, value)` says that `value`
/// is a value that the formula with these terms may be given.
pub type Answers = spec_fn(Seq<TermView>, Option<Fixed>) -> bool;

/// Whether `value` is a value that the formula with these terms may be given:
/// its value as a polynomial where it is one, else what `eval` may return for
/// a formula with these terms.
#[verifier::opaque]
pub open spec fn yields<F: Fn(&Formula) -> Option<Fixed>>(
    eval: F,
    terms: Seq<TermView>,
    value: Option<Fixed>,
) -> bool {
    if polynomial(terms) {
        value == polynomial_value(terms)
    } else {
        exists|f: Formula| f@ == terms && #[trigger] call_ensures(eval, (&f,), value)
    }
}

/// What `eval` may answer.
pub open spec fn answers_of<F: Fn(&Formula) -> Option<Fixed>>(eval: F) -> Answers {
    |terms: Seq<TermView>, value: Option<Fixed>| yields(eval, terms, value)
}

/// Whether every formula is given one value at most.
pub open spec fn single_valued(answers: Answers) -> bool {
    forall|terms: Seq<TermView>, v1: Option<Fixed>, v2: Option<Fixed>|
        #[trigger] answers(terms, v1) && #[trigger] answers(terms, v2) ==> v1 == v2
}

/// The value of `formula`: computed where it is a polynomial, else as `eval`
/// gives it.
pub fn value_of<F: Fn(&Formula) -> Option<Fixed>>(formula: &Formula, eval: &F) -> (value: Option<
    Fixed,
>)
    requires
        accepts_all(*eval),
    ensures
        answers_of(*eval)(formula@, value),
{
    reveal(yields);
    if formula.is_polynomial() {
        formula.polynomial_value()
    } else {
        eval(formula)
    }
}

/// The weight that the value of a sizing equation stands for.
pub open spec fn settled_weight(part: Part, value: Option<Fixed>) -> Result<Weight, Failure> {
    match value {
        None => Err(Failure::OutOfRange { part }),
        Some(v) => if v.raw < 0 {
            Err(Failure::NegativeWeight { part })
        } else {
            Ok(Weight::of(v))
        },
    }
}

/// Takes the value of a sizing equation as the weight of `part`.
///
/// A value below zero is refused as a negative weight, and the lack of a
/// value as out of range.
pub fn settle_weight(part: Part, value: Option<Fixed>) -> (r: Result<Weight, Failure>)
    ensures
        r == settled_weight(part, value),
{
    match value {
        None => Err(Failure::OutOfRange { part }),
        Some(v) => match Weight::new(v) {
            Some(w) => Ok(w),
            None => Err(Failure::NegativeWeight { part }),
        },
    }
}

/// The point at the offsets `x`, `y`, `z` from `origin`.
pub open spec fn settled_position(
    part: Part,
    origin: Point<Fixed>,
    x: Option<Fixed>,
    y: Option<Fixed>,
    z: Option<Fixed>,
) -> Result<Point<Fixed>, Failure> {
    if x is Some && y is Some && z is Some && Fixed::sum(origin.x, x.unwrap()) is Some
        && Fixed::sum(origin.y, y.unwrap()) is Some && Fixed::sum(origin.z, z.unwrap()) is Some {
        Ok(
            Point {
                x: Fixed::sum(origin.x, x.unwrap()).unwrap(),
                y: Fixed::sum(origin.y, y.unwrap()).unwrap(),
                z: Fixed::sum(origin.z, z.unwrap()).unwrap(),
            },
        )
    } else {
        Err(Failure::OutOfRange { part })
    }
}

/// Takes the values of three position formulas as the centre of gravity of
/// `part`, measured from `origin`.
///
/// Fails as out of range where a value is lacking or a coordinate cannot be
/// held.
pub fn settle_position(
    part: Part,
    origin: Point<Fixed>,
    x: Option<Fixed>,
    y: Option<Fixed>,
    z: Option<Fixed>,
) -> (r: Result<Point<Fixed>, Failure>)
    ensures
        r == settled_position(part, origin, x, y, z),
{
    match (x, y, z) {
        (Some(dx), Some(dy), Some(dz)) => {
            match (origin.x.checked_add(dx), origin.y.checked_add(dy), origin.z.checked_add(dz)) {
                (Some(px), Some(py), Some(pz)) => Ok(Point::new(px, py, pz)),
                _ => Err(Failure::OutOfRange { part }),
            }
        },
        _ => Err(Failure::OutOfRange { part }),
    }
}

/// Whether `r` is a weight that `part` may be given: the failure of its
/// formula, or else what a value of its formula settles to.
pub open spec fn weighs(
    answers: Answers,
    part: Part,
    formula: Result<Seq<TermView>, Failure>,
    r: Result<Weight, Failure>,
) -> bool {
    if formula is Err {
        r == Err::<Weight, Failure>(formula->Err_0)
    } else {
        exists|v: Option<Fixed>|
            {
                &&& #[trigger] answers(formula->Ok_0, v)
                &&& r == settled_weight(part, v)
            }
    }
}

/// The weight of `part` from the formula of its weight.
pub fn weigh<F: Fn(&Formula) -> Option<Fixed>>(
    part: Part,
    formula: &Result<Formula, Failure>,
    eval: &F,
) -> (r: Result<Weight, Failure>)
    requires
        accepts_all(*eval),
    ensures
        weighs(answers_of(*eval), part, law(*formula), r),
{
    match formula {
        Err(e) => Err(*e),
        Ok(f) => {
            let v = value_of(f, eval);
            let r = settle_weight(part, v);
            proof {
                assert(law(*formula) is Ok);
                assert(law(*formula)->Ok_0 == f@);
                assert(answers_of(*eval)(law(*formula)->Ok_0, v));
                assert(r == settled_weight(part, v));
            }
            r
        },
    }
}

/// Whether `r` is a centre of gravity that `part` may be given.
pub open spec fn locates(
    answers: Answers,
    part: Part,
    origin: Point<Fixed>,
    position: Result<Point<Seq<TermView>>, Failure>,
    r: Result<Point<Fixed>, Failure>,
) -> bool {
    match position {
        Err(e) => r == Err::<Point<Fixed>, Failure>(e),
        Ok(p) => exists|x: Option<Fixed>, y: Option<Fixed>, z: Option<Fixed>|
            {
                &&& answers(p.x, x)
                &&& answers(p.y, y)
                &&& answers(p.z, z)
                &&& r == #[trigger] settled_position(part, origin, x, y, z)
            },
    }
}

/// The centre of gravity of `part` from the formulas of its position.
pub fn locate<F: Fn(&Formula) -> Option<Fixed>>(
    part: Part,
    origin: Point<Fixed>,
    position: &Result<Point<Formula>, Failure>,
    eval: &F,
) -> (r: Result<Point<Fixed>, Failure>)
    requires
        accepts_all(*eval),
    ensures
        locates(answers_of(*eval), part, origin, place_law(*position), r),
{
    match position {
        Err(e) => Err(*e),
        Ok(p) => {
            let x = value_of(&p.x, eval);
            let y = value_of(&p.y, eval);
            let z = value_of(&p.z, eval);
            settle_position(part, origin, x, y, z)
        },
    }
}

/// A weight and the point it acts at, or the failure of the weight, or else
/// that of the point.
pub open spec fn joined(
    part: Part,
    weight: Result<Weight, Failure>,
    cg: Result<Point<Fixed>, Failure>,
) -> Result<Contribution, Failure> {
    match weight {
        Err(e) => Err(e),
        Ok(w) => match cg {
            Err(e) => Err(e),
            Ok(p) => Ok(Contribution { part, weight: w, cg: p }),
        },
    }
}

/// Whether `r` is what `member` may contribute.
pub open spec fn contributes(
    answers: Answers,
    member: MemberView,
    r: Result<Contribution, Failure>,
) -> bool {
    exists|w: Result<Weight, Failure>, p: Result<Point<Fixed>, Failure>|
        {
            &&& weighs(answers, member.part, member.weight, w)
            &&& locates(answers, member.part, member.origin, member.position, p)
            &&& r == #[trigger] joined(member.part, w, p)
        }
}

/// What `member` contributes to its group.
pub fn contribution<F: Fn(&Formula) -> Option<Fixed>>(member: &Member, eval: &F) -> (r: Result<
    Contribution,
    Failure,
>)
    requires
        accepts_all(*eval),
    ensures
        contributes(answers_of(*eval), member@, r),
{
    let w = weigh(member.part, &member.weight, eval);
    let p = locate(member.part, member.origin, &member.position, eval);
    let r = match w {
        Err(e) => Err(e),
        Ok(weight) => match p {
            Err(e) => Err(e),
            Ok(cg) => Ok(Contribution { part: member.part, weight, cg }),
        },
    };
    proof {
        assert(weighs(answers_of(*eval), member@.part, member@.weight, w));
        assert(locates(answers_of(*eval), member@.part, member@.origin, member@.position, p));
        assert(r == joined(member@.part, w, p));
    }
    r
}

/// A weight whose formula is a polynomial is computed: it is what the value
/// of the polynomial settles to, whatever the evaluator.
pub proof fn lemma_polynomial_weight<F: Fn(&Formula) -> Option<Fixed>>(
    eval: F,
    part: Part,
    terms: Seq<TermView>,
    r: Result<Weight, Failure>,
)
    requires
        polynomial(terms),
        weighs(answers_of(eval), part, Ok(terms), r),
    ensures
        r == settled_weight(part, polynomial_value(terms)),
{
    reveal(yields);
}

/// A centre of gravity whose formulas are polynomials is computed.
pub proof fn lemma_polynomial_position<F: Fn(&Formula) -> Option<Fixed>>(
    eval: F,
    part: Part,
    origin: Point<Fixed>,
    position: Point<Seq<TermView>>,
    r: Result<Point<Fixed>, Failure>,
)
    requires
        polynomial(position.x),
        polynomial(position.y),
        polynomial(position.z),
        locates(answers_of(eval), part, origin, Ok(position), r),
    ensures
        r == settled_position(
            part,
            origin,
            polynomial_value(position.x),
            polynomial_value(position.y),
            polynomial_value(position.z),
        ),
{
    reveal(yields);
}

} // verus!
