//! Checked narrowing between native integer types, by `num_traits::cast`.
use vstd::prelude::*;

verus! {

/// Relies on num_traits::cast from i64 to i8: `Some` of the same value exactly
/// when it lies in i8's range, else `None`.
#[verifier::external_body]
pub(crate) fn i64_to_i8(v: i64) -> (r: Option<i8>)
    ensures
        r == (if i8::MIN <= v <= i8::MAX {
            Some(v as i8)
        } else {
            None
        }),
{
    num_traits::cast::cast::<i64, i8>(v)
}

/// Relies on num_traits::cast from i64 to u8: `Some` of the same value exactly
/// when it lies in u8's range, else `None`.
#[verifier::external_body]
pub(crate) fn i64_to_u8(v: i64) -> (r: Option<u8>)
    ensures
        r == (if 0 <= v <= u8::MAX {
            Some(v as u8)
        } else {
            None
        }),
{
    num_traits::cast::cast::<i64, u8>(v)
}

/// Relies on num_traits::cast from i64 to i16: `Some` of the same value exactly
/// when it lies in i16's range, else `None`.
#[verifier::external_body]
pub(crate) fn i64_to_i16(v: i64) -> (r: Option<i16>)
    ensures
        r == (if i16::MIN <= v <= i16::MAX {
            Some(v as i16)
        } else {
            None
        }),
{
    num_traits::cast::cast::<i64, i16>(v)
}

/// Relies on num_traits::cast from i64 to u16: `Some` of the same value exactly
/// when it lies in u16's range, else `None`.
#[verifier::external_body]
pub(crate) fn i64_to_u16(v: i64) -> (r: Option<u16>)
    ensures
        r == (if 0 <= v <= u16::MAX {
            Some(v as u16)
        } else {
            None
        }),
{
    num_traits::cast::cast::<i64, u16>(v)
}

/// Relies on num_traits::cast from i64 to i32: `Some` of the same value exactly
/// when it lies in i32's range, else `None`.
#[verifier::external_body]
pub(crate) fn i64_to_i32(v: i64) -> (r: Option<i32>)
    ensures
        r == (if i32::MIN <= v <= i32::MAX {
            Some(v as i32)
        } else {
            None
        }),
{
    num_traits::cast::cast::<i64, i32>(v)
}

/// Relies on num_traits::cast from i64 to u32: `Some` of the same value exactly
/// when it lies in u32's range, else `None`.
#[verifier::external_body]
pub(crate) fn i64_to_u32(v: i64) -> (r: Option<u32>)
    ensures
        r == (if 0 <= v <= u32::MAX {
            Some(v as u32)
        } else {
            None
        }),
{
    num_traits::cast::cast::<i64, u32>(v)
}

/// Relies on num_traits::cast from i64 to i64: every value converts, unchanged.
#[verifier::external_body]
pub(crate) fn i64_to_i64(v: i64) -> (r: Option<i64>)
    ensures
        r == Some(v),
{
    num_traits::cast::cast::<i64, i64>(v)
}

/// Relies on num_traits::cast from i64 to isize: `Some` of the same value exactly
/// when it lies in isize's range, else `None`.
#[verifier::external_body]
pub(crate) fn i64_to_isize(v: i64) -> (r: Option<isize>)
    ensures
        r == (if isize::MIN <= v <= isize::MAX {
            Some(v as isize)
        } else {
            None
        }),
{
    num_traits::cast::cast::<i64, isize>(v)
}

/// Relies on num_traits::cast from u64 to u32: `Some` of the same value exactly
/// when it lies in u32's range, else `None`.
#[verifier::external_body]
pub(crate) fn u64_to_u32(v: u64) -> (r: Option<u32>)
    ensures
        r == (if v <= u32::MAX {
            Some(v as u32)
        } else {
            None
        }),
{
    num_traits::cast::cast::<u64, u32>(v)
}

/// Relies on num_traits::cast from u64 to usize: `Some` of the same value exactly
/// when it lies in usize's range, else `None`.
#[verifier::external_body]
pub(crate) fn u64_to_usize(v: u64) -> (r: Option<usize>)
    ensures
        r == (if v <= usize::MAX {
            Some(v as usize)
        } else {
            None
        }),
{
    num_traits::cast::cast::<u64, usize>(v)
}

} // verus!
