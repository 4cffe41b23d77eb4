use vstd::prelude::*;
use vstd::std_specs::cmp::PartialEqSpec;

verus! {

/// How one list stands to another: the same, contained in it, containing
/// it, or neither.
#[derive(Debug, PartialEq, Eq, Structural)]
pub enum Comparison {
    Equal,
    Sublist,
    Superlist,
    Unequal,
}

/// The elements of `a` match those of `b` starting at offset `k`, under
/// the element type's own equality.
pub open spec fn matches_at<T: PartialEqSpec>(a: Seq<T>, b: Seq<T>, k: int) -> bool {
    forall|i: int| 0 <= i < a.len() ==> #[trigger] a[i].eq_spec(&b[k + i])
}

/// `a` occurs somewhere inside `b` as a contiguous run.
pub open spec fn contained_in<T: PartialEqSpec>(a: Seq<T>, b: Seq<T>) -> bool {
    exists|k: int| 0 <= k <= b.len() - a.len() && matches_at(a, b, k)
}

/// What `sublist` decides: equal-length lists are `Equal` exactly when
/// they match element for element; a shorter first list is a `Sublist`
/// exactly when it occurs inside the second; a longer one is a
/// `Superlist` exactly when the second occurs inside it; anything else is
/// `Unequal`.
pub open spec fn spec_sublist<T: PartialEqSpec>(a: Seq<T>, b: Seq<T>) -> Comparison {
    if a.len() == b.len() {
        if contained_in(a, b) {
            Comparison::Equal
        } else {
            Comparison::Unequal
        }
    } else if a.len() < b.len() {
        if contained_in(a, b) {
            Comparison::Sublist
        } else {
            Comparison::Unequal
        }
    } else {
        if contained_in(b, a) {
            Comparison::Superlist
        } else {
            Comparison::Unequal
        }
    }
}

/// Whether `a` matches `b` at offset `k`.
#[verifier::loop_isolation(false)]
fn window_eq<T: PartialEq + PartialEqSpec>(a: &[T], b: &[T], k: usize) -> (r: bool)
    requires
        T::obeys_eq_spec(),
        k + a@.len() <= b@.len(),
    ensures
        r == matches_at(a@, b@, k as int),
{
    let a_len = a.len();
    let b_len = b.len();
    let mut i: usize = 0;
    while i < a_len
        invariant
            T::obeys_eq_spec(),
            k + a@.len() <= b@.len(),
            0 <= i <= a@.len(),
            forall|j: int| 0 <= j < i ==> #[trigger] a@[j].eq_spec(&b@[k + j]),
        decreases a@.len() - i,
    {
        if !(a[i].eq(&b[k + i])) {
            return false;
        }
        i += 1;
    }
    true
}

/// Whether `a` occurs inside `b` as a contiguous run.
#[verifier::loop_isolation(false)]
fn contains_run<T: PartialEq + PartialEqSpec>(a: &[T], b: &[T]) -> (r: bool)
    requires
        T::obeys_eq_spec(),
    ensures
        r == contained_in(a@, b@),
{
    if a.len() > b.len() {
        return false;
    }
    if a.len() == 0 {
        proof {
            assert(matches_at(a@, b@, 0));
        }
        return true;
    }
    let last = b.len() - a.len();
    let mut k: usize = 0;
    while k <= last
        invariant
            T::obeys_eq_spec(),
            a@.len() <= b@.len(),
            last == b@.len() - a@.len(),
            0 <= k <= last + 1,
            forall|j: int| 0 <= j < k ==> !matches_at(a@, b@, j),
        decreases last + 1 - k,
    {
        if window_eq(a, b, k) {
            return true;
        }
        k += 1;
    }
    false
}

/// Classifies the first list against the second: `Equal`, `Sublist`,
/// `Superlist` or `Unequal`, as [`spec_sublist`] lays down.
pub fn sublist<T: PartialEq + PartialEqSpec>(first_list: &[T], second_list: &[T]) -> (r:
    Comparison)
    requires
        T::obeys_eq_spec(),
    ensures
        r == spec_sublist(first_list@, second_list@),
{
    if first_list.len() == second_list.len() {
        if contains_run(first_list, second_list) {
            Comparison::Equal
        } else {
            Comparison::Unequal
        }
    } else if first_list.len() < second_list.len() {
        if contains_run(first_list, second_list) {
            Comparison::Sublist
        } else {
            Comparison::Unequal
        }
    } else {
        if contains_run(second_list, first_list) {
            Comparison::Superlist
        } else {
            Comparison::Unequal
        }
    }
}

} // verus!
