//! Exact byte-string matching for layer and extension names.
//!
//! The driver boundary identifies validation layers and device extensions by
//! name; availability is decided by exact match against an enumerated list,
//! never by prefix or substring.

use vstd::prelude::*;

verus! {

/// Whether the list holds an entry whose bytes equal `name` exactly.
pub open spec fn spec_contains_name(names: Seq<Vec<u8>>, name: Seq<u8>) -> bool {
    exists|i: int| 0 <= i < names.len() && #[trigger] names[i]@ == name
}

/// Exact equality of two byte strings.
pub fn bytes_eq(a: &Vec<u8>, b: &Vec<u8>) -> (r: bool)
    ensures
        r <==> a@ == b@,
{
    if a.len() != b.len() {
        return false;
    }
    let n = a.len();
    let mut i: usize = 0;
    while i < n
        invariant
            n == a@.len() == b@.len(),
            i <= n,
            forall|k: int| 0 <= k < i ==> a@[k] == b@[k],
        decreases n - i,
    {
        if a[i] != b[i] {
            return false;
        }
        i = i + 1;
    }
    proof {
        assert(a@ =~= b@);
    }
    true
}

/// Whether `names` holds an entry equal to `name`, byte for byte.
pub fn names_contain(names: &Vec<Vec<u8>>, name: &Vec<u8>) -> (r: bool)
    ensures
        r <==> spec_contains_name(names@, name@),
{
    let n = names.len();
    let mut i: usize = 0;
    while i < n
        invariant
            n == names@.len(),
            i <= n,
            forall|k: int| 0 <= k < i ==> #[trigger] names@[k]@ != name@,
        decreases n - i,
    {
        if bytes_eq(&names[i], name) {
            return true;
        }
        i = i + 1;
    }
    false
}

} // verus!
