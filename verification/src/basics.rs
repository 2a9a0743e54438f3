//! Small arithmetic and slice helpers, with exact contracts: sums and
//! products pinned to their mathematical value, and the maximum of a slice
//! pinned to an element no other element exceeds.

use vstd::prelude::*;

verus! {

/// The sum of two numbers; the caller keeps it inside `i32`.
pub fn additionner(a: i32, b: i32) -> (r: i32)
    requires
        i32::MIN <= a + b <= i32::MAX,
    ensures
        r == a + b,
{
    a + b
}

/// The sum and the product of two numbers, as a pair; the caller keeps both
/// inside `i32`.
pub fn calculer(a: i32, b: i32) -> (r: (i32, i32))
    requires
        i32::MIN <= a + b <= i32::MAX,
        i32::MIN <= a * b <= i32::MAX,
    ensures
        r.0 == a + b,
        r.1 == a * b,
{
    (a + b, a * b)
}

/// A reference to a maximal element of the slice: `None` exactly when the
/// slice is empty, otherwise an element no element exceeds.
pub fn trouver_max(slice: &[i32]) -> (r: Option<&i32>)
    ensures
        r is None <==> slice@.len() == 0,
        r matches Some(m) ==> exists|i: int| 0 <= i < slice@.len() && slice@[i] == *m,
        r matches Some(m) ==> forall|i: int| 0 <= i < slice@.len() ==> slice@[i] <= *m,
{
    if slice.is_empty() {
        return None;
    }
    let n = slice.len();
    let mut best: usize = 0;
    let mut i: usize = 1;
    while i < n
        invariant
            n == slice@.len(),
            0 < n,
            best < i <= n,
            forall|k: int| 0 <= k < i ==> slice@[k] <= slice@[best as int],
        decreases n - i,
    {
        if slice[i] > slice[best] {
            best = i;
        }
        i = i + 1;
    }
    Some(&slice[best])
}

/// A day of the week.
#[derive(Debug)]
pub enum Jour {
    Lundi,
    Mardi,
    Mercredi,
    Jeudi,
    Vendredi,
    Samedi,
    Dimanche,
}

} // verus!
