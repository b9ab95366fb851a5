//! Work-group dispatch counts.
//!
//! A dispatch covers an element extent with work groups of the shader's
//! local size. Partial work groups are not masked, so a count computed by
//! truncating division would silently leave elements untouched; a
//! configuration whose extent is not an exact multiple of the local size is
//! therefore rejected instead.

use vstd::prelude::*;
use vstd::arithmetic::div_mod::lemma_fundamental_div_mod;
use vstd::arithmetic::mul::lemma_mul_is_commutative;
use crate::errors::DispatchError;

verus! {

/// Number of work groups dispatched along each axis.
#[derive(Clone, Copy, Debug, PartialEq, Eq, Structural)]
pub struct GroupCounts {
    pub x: u32,
    pub y: u32,
    pub z: u32,
}

/// Local work-group size an entry point declares, per axis.
#[derive(Clone, Copy, Debug, PartialEq, Eq, Structural)]
pub struct LocalSize {
    pub x: u32,
    pub y: u32,
    pub z: u32,
}

/// Element extent to cover, per axis; a flat buffer is `(n, 1, 1)`.
#[derive(Clone, Copy, Debug, PartialEq, Eq, Structural)]
pub struct Extent3 {
    pub width: u32,
    pub height: u32,
    pub depth: u32,
}

/// Work groups needed for `elements` items at local size `local_size`.
///
/// Succeeds exactly when the local size is nonzero and divides the element
/// count, and then the count of groups times the local size covers the
/// elements exactly; otherwise the configuration is rejected.
pub fn work_group_count(elements: u32, local_size: u32) -> (r: Result<u32, DispatchError>)
    ensures
        r is Ok <==> local_size != 0 && elements % local_size == 0,
        r matches Ok(c) ==> c == elements / local_size && c * local_size == elements,
        r matches Err(e) ==> e == (if local_size == 0 {
            DispatchError::ZeroLocalSize
        } else {
            DispatchError::NotDivisible
        }),
{
    if local_size == 0 {
        return Err(DispatchError::ZeroLocalSize);
    }
    if elements % local_size != 0 {
        return Err(DispatchError::NotDivisible);
    }
    proof {
        lemma_fundamental_div_mod(elements as int, local_size as int);
        lemma_mul_is_commutative(elements as int / local_size as int, local_size as int);
    }
    Ok(elements / local_size)
}

/// Whether `local` divides `extent` exactly along every axis.
pub open spec fn covers_exactly(extent: Extent3, local: LocalSize) -> bool {
    &&& extent.width % local.x == 0
    &&& extent.height % local.y == 0
    &&& extent.depth % local.z == 0
}

/// Work groups needed along each axis to cover `extent` at local size
/// `local`.
///
/// Succeeds exactly when every axis of the local size is nonzero and divides
/// the extent's axis, and then each axis count times its local size equals
/// the extent; a zero local size is reported before a non-divisible one.
pub fn work_group_counts(extent: Extent3, local: LocalSize) -> (r: Result<
    GroupCounts,
    DispatchError,
>)
    ensures
        r is Ok <==> local.x != 0 && local.y != 0 && local.z != 0 && covers_exactly(extent, local),
        r matches Ok(c) ==> c.x * local.x == extent.width && c.y * local.y == extent.height && c.z
            * local.z == extent.depth && c.x == extent.width / local.x && c.y == extent.height
            / local.y && c.z == extent.depth / local.z,
        r matches Err(e) ==> e == (if local.x == 0 || local.y == 0 || local.z == 0 {
            DispatchError::ZeroLocalSize
        } else {
            DispatchError::NotDivisible
        }),
{
    if local.x == 0 || local.y == 0 || local.z == 0 {
        return Err(DispatchError::ZeroLocalSize);
    }
    if extent.width % local.x != 0 || extent.height % local.y != 0 || extent.depth % local.z != 0 {
        return Err(DispatchError::NotDivisible);
    }
    proof {
        lemma_fundamental_div_mod(extent.width as int, local.x as int);
        lemma_fundamental_div_mod(extent.height as int, local.y as int);
        lemma_fundamental_div_mod(extent.depth as int, local.z as int);
        lemma_mul_is_commutative(extent.width as int / local.x as int, local.x as int);
        lemma_mul_is_commutative(extent.height as int / local.y as int, local.y as int);
        lemma_mul_is_commutative(extent.depth as int / local.z as int, local.z as int);
    }
    Ok(
        GroupCounts {
            x: extent.width / local.x,
            y: extent.height / local.y,
            z: extent.depth / local.z,
        },
    )
}

} // verus!
