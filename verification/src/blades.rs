use vstd::prelude::*;

verus! {

/// Guards every division by the blade count. A kernel without blades has no
/// angular period and no per-blade share of its radius: a count of zero
/// yields no divisor, and the terms that would divide by it fall away, which
/// leaves a plain disc. Any other count is its own divisor.
pub fn blade_divisor(blades: i32) -> (divisor: Option<i32>)
    ensures
        blades == 0 ==> divisor is None,
        blades != 0 ==> divisor == Some(blades),
{
    if blades == 0 {
        None
    } else {
        Some(blades)
    }
}

} // verus!
