use vstd::prelude::*;
use vstd::std_specs::ops::MulSpec;

verus! {

/// `*lhs = *lhs * rhs`, for any type with a multiplication onto itself.
pub fn mul_assign<Lhs, Rhs>(lhs: &mut Lhs, rhs: Rhs)
    where
        Lhs: Copy + core::ops::Mul<Rhs, Output = Lhs>,
    requires
        old(lhs).mul_req(rhs),
    ensures
        Lhs::obeys_mul_spec() ==> *final(lhs) == old(lhs).mul_spec(rhs),
{
    let x = *lhs;
    *lhs = x * rhs;
}

} // verus!
