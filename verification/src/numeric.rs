use vstd::prelude::*;

verus! {

/// `num_traits::Zero::is_zero` for `i64`. It compares the number with
/// zero.
#[verifier::external_body]
pub(crate) fn is_zero(v: i64) -> (b: bool)
    ensures
        b == (v == 0),
{
    num_traits::Zero::is_zero(&v)
}

/// `num_traits::NumCast::from` from `i64` to `i32`. It gives the same
/// number where that lies between the least and the greatest `i32`, and
/// nothing otherwise.
#[verifier::external_body]
pub(crate) fn cast_to_i32(v: i64) -> (r: Option<i32>)
    ensures
        r.is_some() <==> -0x8000_0000 <= v <= 0x7fff_ffff,
        r.is_some() ==> r.unwrap() == v,
{
    num_traits::NumCast::from(v)
}

/// `num_traits::ToPrimitive::to_i64` for `i32`. Every `i32` is an `i64`,
/// so it always gives the same number.
#[verifier::external_body]
pub(crate) fn to_i64(v: i32) -> (r: Option<i64>)
    ensures
        r == Some(v as i64),
{
    num_traits::ToPrimitive::to_i64(&v)
}

} // verus!
