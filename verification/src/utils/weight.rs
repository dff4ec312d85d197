//! Weights.
use core::ops::Add;
use vstd::prelude::*;
use vstd::std_specs::ops::AddSpecImpl;
use crate::utils::fixed::Fixed;

verus! {

/// A weight in pounds. It is never negative.
#[derive(Clone, Copy, Debug)]
pub struct Weight {
    val: Fixed,
}

impl View for Weight {
    type V = Fixed;

    closed spec fn view(&self) -> Fixed {
        self.val
    }
}

impl Weight {
    #[verifier::type_invariant]
    spec fn non_negative(self) -> bool {
        self.val.raw >= 0
    }

    /// The weight of `val` pounds; `val` must not be negative.
    pub closed spec fn of(val: Fixed) -> Weight {
        Weight { val }
    }

    /// Two weights of the same amount are the same weight.
    pub broadcast proof fn lemma_of_view(w: Weight)
        ensures
            #[trigger] Weight::of(w@) == w,
    {
    }

    pub broadcast proof fn lemma_view_of(val: Fixed)
        ensures
            #[trigger] Weight::of(val)@ == val,
    {
    }

    /// The weight of `val` pounds, or `None` where `val` is negative.
    pub fn new(val: Fixed) -> (r: Option<Weight>)
        ensures
            r == if val.raw >= 0 {
                Some(Weight::of(val))
            } else {
                None
            },
    {
        if val.raw >= 0 {
            Some(Weight { val })
        } else {
            None
        }
    }

    /// The weight of both together, where that can be held.
    pub open spec fn plus(self, rhs: Weight) -> Weight {
        Weight::of(Fixed { raw: (self@.raw + rhs@.raw) as i64 })
    }

    /// The amount in pounds.
    pub fn get_val(self) -> (val: Fixed)
        ensures
            val == self@,
            val.raw >= 0,
    {
        proof {
            use_type_invariant(&self);
        }
        self.val
    }

    /// Sum of two weights, or `None` where it is too large to be held.
    pub fn checked_add(self, rhs: Weight) -> (r: Option<Weight>)
        ensures
            r == if self@.raw + rhs@.raw <= i64::MAX {
                Some(self.plus(rhs))
            } else {
                None
            },
    {
        proof {
            use_type_invariant(&self);
            use_type_invariant(&rhs);
        }
        match self.val.raw.checked_add(rhs.val.raw) {
            Some(raw) => Some(Weight { val: Fixed { raw } }),
            None => None,
        }
    }
}

impl AddSpecImpl<Weight> for Weight {
    open spec fn obeys_add_spec() -> bool {
        true
    }

    open spec fn add_req(self, rhs: Weight) -> bool {
        self@.raw + rhs@.raw <= i64::MAX
    }

    open spec fn add_spec(self, rhs: Weight) -> Weight {
        self.plus(rhs)
    }
}

/// Sum of two weights that together can be held.
impl Add<Weight> for Weight {
    type Output = Weight;

    fn add(self, rhs: Weight) -> (r: Weight) {
        proof {
            use_type_invariant(&self);
            use_type_invariant(&rhs);
        }
        Weight { val: Fixed { raw: self.val.raw + rhs.val.raw } }
    }
}

} // verus!
