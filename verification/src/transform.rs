//! The compute transform the playground dispatches: elementwise scaling of a
//! buffer of sequential integers, and the host-side check of the result.
//!
//! The device runs the same transform as [`scale_in_place`]; after readback
//! the host holds every element against the expected value. Buffers are
//! indexed by 32-bit invocation ids, so their length is bounded by
//! `u32::MAX`.

use vstd::prelude::*;
use vstd::arithmetic::mul::lemma_mul_upper_bound;

verus! {

/// `scaled` is `orig` with every element multiplied by `k`, exactly.
pub open spec fn spec_scaled_by(orig: Seq<u32>, scaled: Seq<u32>, k: u32) -> bool {
    &&& scaled.len() == orig.len()
    &&& forall|i: int| 0 <= i < orig.len() ==> scaled[i] == orig[i] * k
}

/// The buffer the playground starts from: the first `n` integers in order.
pub fn sequential_content(n: u32) -> (v: Vec<u32>)
    ensures
        v@.len() == n,
        forall|i: int| 0 <= i < n ==> v@[i] == i,
{
    let mut v: Vec<u32> = Vec::new();
    let mut i: u32 = 0;
    while i < n
        invariant
            i <= n,
            v@.len() == i,
            forall|k: int| 0 <= k < i ==> v@[k] == k,
        decreases n - i,
    {
        v.push(i);
        i = i + 1;
    }
    v
}

/// Multiply every element by `k`, in place: the host-side run of the
/// transform the shader computes on the device.
pub fn scale_in_place(v: &mut Vec<u32>, k: u32)
    requires
        forall|i: int| 0 <= i < old(v)@.len() ==> old(v)@[i] * k <= u32::MAX,
    ensures
        spec_scaled_by(old(v)@, final(v)@, k),
{
    let n = v.len();
    let mut i: usize = 0;
    while i < n
        invariant
            n == v@.len() == old(v)@.len(),
            i <= n,
            forall|j: int| 0 <= j < old(v)@.len() ==> old(v)@[j] * k <= u32::MAX,
            forall|j: int| 0 <= j < i ==> v@[j] == old(v)@[j] * k,
            forall|j: int| i <= j < n ==> v@[j] == old(v)@[j],
        decreases n - i,
    {
        let x = v[i];
        v.set(i, x * k);
        i = i + 1;
    }
}

/// Whether `buf` holds exactly the sequential content scaled by `k`: element
/// `i` equals `i * k`, with no truncation.
pub fn check_sequential_scaled(buf: &Vec<u32>, k: u32) -> (r: bool)
    requires
        buf@.len() <= u32::MAX,
    ensures
        r <==> forall|i: int| 0 <= i < buf@.len() ==> buf@[i] == i * k,
{
    let n = buf.len();
    let mut i: usize = 0;
    while i < n
        invariant
            n == buf@.len() <= u32::MAX,
            i <= n,
            forall|j: int| 0 <= j < i ==> buf@[j] == j * k,
        decreases n - i,
    {
        proof {
            lemma_mul_upper_bound(i as int, 0xffff_fffe, k as int, 0xffff_ffff);
        }
        if buf[i] as u64 != (i as u64) * (k as u64) {
            return false;
        }
        i = i + 1;
    }
    true
}

/// Law: the round trip closes — a buffer that started as the first `n`
/// integers and was scaled elementwise by `k` holds `i * k` at every index
/// `i`, which is exactly what the post-execution check accepts.
pub proof fn lemma_sequential_scale_round_trip(orig: Seq<u32>, scaled: Seq<u32>, k: u32)
    requires
        forall|i: int| 0 <= i < orig.len() ==> orig[i] == i,
        spec_scaled_by(orig, scaled, k),
    ensures
        forall|i: int| 0 <= i < scaled.len() ==> scaled[i] == i * k,
{
}

} // verus!
