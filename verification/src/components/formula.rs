//! Sizing equations as data.
//!
//! The empirical equations of the build-up method raise their inputs to
//! fractional powers and divide by cosines. A [`Formula`] states such an
//! equation exactly, without evaluating it: it is a sum of terms, and each
//! term is a coefficient times a product of factors
//! `function(argument) ^ exponent`. Angles are in radians.
//!
//! A formula whose factors are all plain arguments is a polynomial. Its
//! value is computed here, in fixed-point arithmetic: each product is
//! rounded down to the next millionth.
use vstd::prelude::*;
use crate::utils::fixed::Fixed;

verus! {

/// What a factor applies to its argument before raising it to its power.
#[derive(Clone, Copy, Debug, PartialEq, Eq, Structural)]
pub enum Function {
    /// The argument itself.
    Identity,
    /// The cosine of the argument.
    Cosine,
    /// The tangent of the argument.
    Tangent,
}

/// One factor of a term: `function(argument) ^ exponent`.
#[derive(Clone, Copy, Debug, PartialEq, Eq, Structural)]
pub struct Factor {
    pub function: Function,
    pub argument: Fixed,
    pub exponent: Fixed,
}

/// One term of a formula: `coefficient` times the product of `factors`.
#[derive(Debug)]
pub struct Term {
    pub coefficient: Fixed,
    pub factors: Vec<Factor>,
}

/// A term as a mathematical value.
pub struct TermView {
    pub coefficient: Fixed,
    pub factors: Seq<Factor>,
}

/// The sum of `terms`.
#[derive(Debug)]
pub struct Formula {
    pub terms: Vec<Term>,
}

/// `argument ^ (exponent / 1_000_000)`.
pub open spec fn power(argument: Fixed, exponent: int) -> Factor {
    Factor { function: Function::Identity, argument, exponent: Fixed { raw: exponent as i64 } }
}

/// `argument` itself.
pub open spec fn times(argument: Fixed) -> Factor {
    power(argument, 1_000_000)
}

/// `cos(angle) ^ (exponent / 1_000_000)`.
pub open spec fn cosine(angle: Fixed, exponent: int) -> Factor {
    Factor { function: Function::Cosine, argument: angle, exponent: Fixed { raw: exponent as i64 } }
}

/// `tan(angle)`.
pub open spec fn tangent(angle: Fixed) -> Factor {
    Factor { function: Function::Tangent, argument: angle, exponent: Fixed { raw: 1_000_000 } }
}

/// The term `(coefficient / 1_000_000) * factors[0] * factors[1] * ...`.
pub open spec fn term(coefficient: int, factors: Seq<Factor>) -> TermView {
    TermView { coefficient: Fixed { raw: coefficient as i64 }, factors }
}

/// The formula whose value is `value` whatever the evaluation.
pub open spec fn constant(value: Fixed) -> Seq<TermView> {
    seq![TermView { coefficient: value, factors: Seq::<Factor>::empty() }]
}

/// Whether `factor` is its argument itself, neither raised to a power nor
/// put through a function.
pub open spec fn plain(factor: Factor) -> bool {
    factor.function == Function::Identity && factor.exponent.raw == 1_000_000
}

/// Whether every one of `factors` is plain.
pub open spec fn all_plain(factors: Seq<Factor>) -> bool {
    forall|i: int| 0 <= i < factors.len() ==> plain(#[trigger] factors[i])
}

/// Whether the formula is a polynomial in its arguments: a sum of products
/// of a coefficient and plain factors.
pub open spec fn polynomial(terms: Seq<TermView>) -> bool {
    forall|i: int| 0 <= i < terms.len() ==> all_plain((#[trigger] terms[i]).factors)
}

/// `start` multiplied by the arguments of `factors` in turn, each product
/// rounded down to the next millionth; `None` where one of them cannot be
/// held.
pub open spec fn product(start: Fixed, factors: Seq<Factor>) -> Option<Fixed>
    decreases factors.len(),
{
    if factors.len() == 0 {
        Some(start)
    } else {
        match product(start, factors.drop_last()) {
            None => None,
            Some(v) => v.ratio(factors.last().argument.raw, 1_000_000),
        }
    }
}

/// The value of a polynomial: the sum of the products of its terms, taken
/// in turn; `None` where a product or a sum cannot be held.
pub open spec fn polynomial_value(terms: Seq<TermView>) -> Option<Fixed>
    decreases terms.len(),
{
    if terms.len() == 0 {
        Some(Fixed { raw: 0 })
    } else {
        match polynomial_value(terms.drop_last()) {
            None => None,
            Some(sum) => match product(terms.last().coefficient, terms.last().factors) {
                None => None,
                Some(v) => Fixed::sum(sum, v),
            },
        }
    }
}

/// A formula that stands for a number is a polynomial, and its value is
/// that number.
pub proof fn lemma_constant(value: Fixed)
    ensures
        polynomial(constant(value)),
        polynomial_value(constant(value)) == Some(value),
{
    let terms = constant(value);
    assert(terms.drop_last() =~= Seq::<TermView>::empty());
    assert(polynomial_value(terms.drop_last()) == Some(Fixed { raw: 0 }));
    assert(product(value, Seq::<Factor>::empty()) == Some(value));
}

impl Factor {
    pub fn power(argument: Fixed, exponent: i64) -> (f: Factor)
        ensures
            f == power(argument, exponent as int),
    {
        Factor { function: Function::Identity, argument, exponent: Fixed { raw: exponent } }
    }

    pub fn times(argument: Fixed) -> (f: Factor)
        ensures
            f == times(argument),
    {
        Factor { function: Function::Identity, argument, exponent: Fixed { raw: 1_000_000 } }
    }

    pub fn cosine(angle: Fixed, exponent: i64) -> (f: Factor)
        ensures
            f == cosine(angle, exponent as int),
    {
        Factor { function: Function::Cosine, argument: angle, exponent: Fixed { raw: exponent } }
    }

    pub fn tangent(angle: Fixed) -> (f: Factor)
        ensures
            f == tangent(angle),
    {
        Factor { function: Function::Tangent, argument: angle, exponent: Fixed { raw: 1_000_000 } }
    }
}

impl View for Term {
    type V = TermView;

    open spec fn view(&self) -> TermView {
        TermView { coefficient: self.coefficient, factors: self.factors@ }
    }
}

impl Term {
    pub fn new(coefficient: i64, factors: Vec<Factor>) -> (t: Term)
        ensures
            t@ == term(coefficient as int, factors@),
    {
        Term { coefficient: Fixed { raw: coefficient }, factors }
    }
}

impl View for Formula {
    type V = Seq<TermView>;

    open spec fn view(&self) -> Seq<TermView> {
        self.terms@.map_values(|t: Term| t@)
    }
}

impl Formula {
    /// The formula that adds up `terms`.
    pub fn sum(terms: Vec<Term>) -> (f: Formula)
        ensures
            f@ == terms@.map_values(|t: Term| t@),
            f@.len() == terms@.len(),
    {
        Formula { terms }
    }

    /// The formula with the one term `coefficient * factors`.
    pub fn single(coefficient: i64, factors: Vec<Factor>) -> (f: Formula)
        ensures
            f@ == seq![term(coefficient as int, factors@)],
    {
        let mut terms: Vec<Term> = Vec::new();
        terms.push(Term::new(coefficient, factors));
        let f = Formula { terms };
        assert(f@ =~= seq![term(coefficient as int, factors@)]);
        f
    }

    /// The formula that stands for the number `value`.
    pub fn constant(value: Fixed) -> (f: Formula)
        ensures
            f@ == constant(value),
    {
        let mut terms: Vec<Term> = Vec::new();
        terms.push(Term { coefficient: value, factors: Vec::new() });
        let f = Formula { terms };
        assert(f@ =~= constant(value));
        f
    }

    /// Whether the formula is a polynomial in its arguments.
    pub fn is_polynomial(&self) -> (b: bool)
        ensures
            b == polynomial(self@),
    {
        let mut i: usize = 0;
        while i < self.terms.len()
            invariant
                i <= self.terms.len(),
                forall|k: int| 0 <= k < i ==> all_plain((#[trigger] self@[k]).factors),
            decreases self.terms.len() - i,
        {
            let term: &Term = &self.terms[i];
            assert(self@[i as int] == term@);
            let mut j: usize = 0;
            while j < term.factors.len()
                invariant
                    j <= term.factors.len(),
                    0 <= i < self@.len(),
                    self@[i as int].factors == term.factors@,
                    forall|k: int| 0 <= k < j ==> plain(#[trigger] term.factors@[k]),
                decreases term.factors.len() - j,
            {
                let factor: Factor = term.factors[j];
                let is_plain: bool = match factor.function {
                    Function::Identity => factor.exponent.raw == 1_000_000,
                    _ => false,
                };
                if !is_plain {
                    assert(!plain(term.factors@[j as int]));
                    assert(!all_plain(self@[i as int].factors));
                    return false;
                }
                j += 1;
            }
            i += 1;
        }
        true
    }

    /// The value of the formula as a polynomial.
    pub fn polynomial_value(&self) -> (value: Option<Fixed>)
        ensures
            value == polynomial_value(self@),
    {
        let mut sum: Option<Fixed> = Some(Fixed { raw: 0 });
        let mut i: usize = 0;
        assert(self@.subrange(0, 0) =~= Seq::<TermView>::empty());
        while i < self.terms.len()
            invariant
                i <= self.terms.len(),
                sum == polynomial_value(self@.subrange(0, i as int)),
            decreases self.terms.len() - i,
        {
            let term: &Term = &self.terms[i];
            let mut value: Option<Fixed> = Some(term.coefficient);
            let mut j: usize = 0;
            assert(term.factors@.subrange(0, 0) =~= Seq::<Factor>::empty());
            while j < term.factors.len()
                invariant
                    j <= term.factors.len(),
                    value == product(term.coefficient, term.factors@.subrange(0, j as int)),
                decreases term.factors.len() - j,
            {
                let argument: Fixed = term.factors[j].argument;
                proof {
                    let before = term.factors@.subrange(0, j as int);
                    let after = term.factors@.subrange(0, j + 1);
                    assert(after.drop_last() =~= before);
                    assert(after.last() == term.factors@[j as int]);
                }
                value = match value {
                    None => None,
                    Some(v) => v.scaled(argument.raw, 1_000_000),
                };
                j += 1;
            }
            proof {
                assert(term.factors@.subrange(0, j as int) =~= term.factors@);
                let before = self@.subrange(0, i as int);
                let after = self@.subrange(0, i + 1);
                assert(after.drop_last() =~= before);
                assert(after.last() == term@);
            }
            sum = match (sum, value) {
                (Some(s), Some(v)) => s.checked_add(v),
                _ => None,
            };
            i += 1;
        }
        assert(self@.subrange(0, i as int) =~= self@);
        sum
    }
}

} // verus!
