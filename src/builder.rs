//! Options of the instruction builder.
use vstd::prelude::*;

verus! {

/// The comparison that an integer compare instruction makes.
#[derive(Clone, Copy, Debug, PartialEq, Eq, Structural)]
pub enum IntPredicate {
    Eq,
    Ne,
    Ugt,
    Uge,
    Ult,
    Ule,
    Sgt,
    Sge,
    Slt,
    Sle,
}

impl IntPredicate {
    /// The value of this predicate in the foreign library's binary interface.
    pub open spec fn tag_spec(self) -> u32 {
        match self {
            IntPredicate::Eq => 32,
            IntPredicate::Ne => 33,
            IntPredicate::Ugt => 34,
            IntPredicate::Uge => 35,
            IntPredicate::Ult => 36,
            IntPredicate::Ule => 37,
            IntPredicate::Sgt => 38,
            IntPredicate::Sge => 39,
            IntPredicate::Slt => 40,
            IntPredicate::Sle => 41,
        }
    }

    /// The value of this predicate in the foreign library's binary interface.
    pub fn tag(self) -> (r: u32)
        ensures
            r == self.tag_spec(),
    {
        match self {
            IntPredicate::Eq => 32,
            IntPredicate::Ne => 33,
            IntPredicate::Ugt => 34,
            IntPredicate::Uge => 35,
            IntPredicate::Ult => 36,
            IntPredicate::Ule => 37,
            IntPredicate::Sgt => 38,
            IntPredicate::Sge => 39,
            IntPredicate::Slt => 40,
            IntPredicate::Sle => 41,
        }
    }
}

} // verus!
